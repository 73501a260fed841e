use vstd::prelude::*;
use crate::celestial::graph::Graph;
use crate::celestial::node::Node;

verus! {

/// What a click on a node asks for.
#[derive(Debug)]
pub enum SelectionAction {
    Select(String),
    StartEditing(String),
}

/// The node that is selected, if any.
pub struct NodeSelector {
    pub selected_node: Option<String>,
}

impl NodeSelector {
    /// The identifier of the selected node, as characters.
    pub open spec fn selection(&self) -> Option<Seq<char>> {
        match self.selected_node {
            Some(id) => Some(id@),
            None => None,
        }
    }

    pub fn new() -> (selector: Self)
        ensures
            selector.selected_node is None,
    {
        Self { selected_node: None }
    }

    pub fn select_node(&mut self, node_id: String)
        ensures
            final(self).selected_node == Some(node_id),
    {
        self.selected_node = Some(node_id);
    }

    pub fn deselect(&mut self)
        ensures
            final(self).selected_node is None,
    {
        self.selected_node = None;
    }

    pub fn is_selected(&self, node_id: &str) -> (selected: bool)
        ensures
            selected == (self.selection() == Some(node_id@)),
    {
        match &self.selected_node {
            Some(id) => {
                let wanted: String = node_id.to_owned();
                *id == wanted
            },
            None => false,
        }
    }

    /// The selected node, if one is selected and the graph has it.
    pub fn get_selected_node<'a>(&self, graph: &'a Graph) -> (node: Option<&'a Node>)
        requires
            graph.wf(),
        ensures
            match self.selection() {
                Some(id) => if graph.has(id) {
                    node matches Some(found) && *found == graph.node(id)
                } else {
                    node is None
                },
                None => node is None,
            },
    {
        match &self.selected_node {
            Some(id) => graph.get_node(id.as_str()),
            None => None,
        }
    }
}

} // verus!
