//! A universe: a graph under a title.

use vstd::prelude::*;
use vstd::string::StringExecFns;
use crate::celestial::graph::Graph;
use crate::outside::random_uuid;

verus! {

/// A graph with an identifier and a title.
pub struct Universe {
    pub id: String,
    pub title: String,
    pub graph: Graph,
}

impl Universe {
    pub fn new(id: String, title: String, graph: Graph) -> (universe: Self)
        ensures
            universe.id == id,
            universe.title == title,
            universe.graph == graph,
    {
        Self { id, title, graph }
    }
}

impl From<Graph> for Universe {
    /// The graph as a universe with the title "New Universe", under a fresh
    /// random identifier.
    fn from(graph: Graph) -> (universe: Self)
        ensures
            universe.graph == graph,
            universe.title@ == "New Universe"@,
            universe.id@.len() == 36,
    {
        Self { id: random_uuid(), title: String::from_str("New Universe"), graph }
    }
}

impl vstd::std_specs::convert::FromSpecImpl<Graph> for Universe {
    /// The identifier is drawn at random, so that the universe is no
    /// function of the graph.
    open spec fn obeys_from_spec() -> bool {
        false
    }

    open spec fn from_spec(graph: Graph) -> Self {
        Universe { id: arbitrary(), title: arbitrary(), graph }
    }
}

impl From<Universe> for Graph {
    /// The graph of a universe.
    fn from(universe: Universe) -> (graph: Self) {
        universe.graph
    }
}

impl vstd::std_specs::convert::FromSpecImpl<Universe> for Graph {
    open spec fn obeys_from_spec() -> bool {
        true
    }

    open spec fn from_spec(universe: Universe) -> Self {
        universe.graph
    }
}

} // verus!
