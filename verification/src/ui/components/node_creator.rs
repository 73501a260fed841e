use vstd::prelude::*;
use crate::celestial::graph::Graph;
use crate::celestial::node_type::NodeType;
use crate::celestial::position::Position2D;

verus! {

/// How far below the pointer, in thousandths, a node is put that evolves
/// from another.
pub const EVOLUTION_DROP: i128 = 50000;

/// What a node is to be made as.
#[derive(Debug, Clone)]
pub enum NodeCreationInfo {
    Root(Position2D),
    Child { parent_id: String, node_type: NodeType, position: Position2D },
    Evolution { base_id: String, position: Position2D },
}

/// What the window in which a node is made asks for.
#[derive(Debug)]
pub enum CreationAction {
    CreateRoot { title: String, description: String, position: Position2D },
    CreateChild { parent_id: String, title: String, description: String, node_type: NodeType, position: Position2D },
    CreateEvolution { base_id: String, title: String, description: String, position: Position2D },
}

/// The window in which a node is made: whether it is open, what was typed
/// into it, where the pointer was when it was opened, and the node from
/// which the new node is to stem, if any.
pub struct NodeCreator {
    pub show_creator: bool,
    pub new_node_title: String,
    pub hover_pos: Option<Position2D>,
    pub creation_info: Option<NodeCreationInfo>,
    pub source_node_id: Option<String>,
    pub description: String,
}

/// `value + EVOLUTION_DROP`, held at the largest number that fits.
pub open spec fn dropped(value: int) -> int {
    if value + EVOLUTION_DROP > i128::MAX {
        i128::MAX as int
    } else {
        value + EVOLUTION_DROP
    }
}

impl NodeCreator {
    /// The window is closed and empty.
    pub open spec fn is_reset(&self) -> bool {
        &&& !self.show_creator
        &&& self.new_node_title@.len() == 0
        &&& self.hover_pos is None
        &&& self.creation_info is None
        &&& self.source_node_id is None
        &&& self.description@.len() == 0
    }

    /// The kinds of child that the window offers: those that the kind of
    /// the source node allows, where there is a source node and the graph
    /// has it.
    pub open spec fn offers(&self, graph: &Graph) -> Seq<NodeType> {
        match self.source_node_id {
            Some(id) => if graph.has(id@) {
                graph.node(id@).node_type.valid_children()
            } else {
                Seq::empty()
            },
            None => Seq::empty(),
        }
    }

    /// Whether the window can answer: it is open, and the place of the
    /// pointer is known.
    pub open spec fn is_ready(&self) -> bool {
        self.show_creator && self.hover_pos is Some
    }

    pub fn new() -> (creator: Self)
        ensures
            creator.is_reset(),
    {
        Self {
            show_creator: false,
            new_node_title: String::new(),
            hover_pos: None,
            creation_info: None,
            source_node_id: None,
            description: String::new(),
        }
    }

    /// The kinds of child that the window offers.
    pub fn offered_kinds(&self, graph: &Graph) -> (kinds: Vec<NodeType>)
        requires
            graph.wf(),
        ensures
            kinds@ == self.offers(graph),
    {
        match &self.source_node_id {
            Some(id) => match graph.get_node(id.as_str()) {
                Some(parent) => parent.node_type.get_valid_children(),
                None => Vec::new(),
            },
            None => Vec::new(),
        }
    }

    /// The answer to the choice of the kind `node_type` for a child of the
    /// source node: the child to make, at the place of the pointer, after
    /// which the window is reset. Nothing, and no reset, where the window is
    /// not ready or does not offer that kind.
    pub fn pick_child(&mut self, graph: &Graph, node_type: NodeType) -> (action: Option<CreationAction>)
        requires
            graph.wf(),
        ensures
            old(self).is_ready() && old(self).offers(graph).contains(node_type) ==> {
                &&& final(self).is_reset()
                &&& action matches Some(CreationAction::CreateChild {
                    parent_id,
                    title,
                    description,
                    node_type: kind,
                    position,
                })
                &&& old(self).source_node_id == Some(parent_id)
                &&& title == old(self).new_node_title
                &&& description == old(self).description
                &&& kind == node_type
                &&& Some(position) == old(self).hover_pos
            },
            !(old(self).is_ready() && old(self).offers(graph).contains(node_type)) ==> action is None
                && *final(self) == *old(self),
    {
        if !self.show_creator {
            return None;
        }
        let position: Position2D = match self.hover_pos {
            Some(p) => p,
            None => {
                return None;
            },
        };
        let kinds: Vec<NodeType> = self.offered_kinds(graph);
        let mut offered: bool = false;
        let mut i: usize = 0;
        while i < kinds.len()
            invariant
                i <= kinds@.len(),
                offered == kinds@.take(i as int).contains(node_type),
            decreases kinds@.len() - i,
        {
            if kinds[i] == node_type {
                offered = true;
            }
            proof {
                let next = kinds@.take(i as int + 1);
                if kinds@[i as int] == node_type {
                    assert(next[i as int] == node_type);
                }
            }
            i += 1;
        }
        assert(kinds@.take(kinds@.len() as int) =~= kinds@);
        if !offered {
            return None;
        }
        let parent_id: String = match self.source_node_id.take() {
            Some(id) => id,
            None => {
                return None;
            },
        };
        let title: String = self.new_node_title.clone();
        let description: String = self.description.clone();
        self.reset();
        Some(CreationAction::CreateChild { parent_id, title, description, node_type, position })
    }

    /// The answer to "Create Star", which is offered where the new node
    /// stems from no other: the root to make, at the place of the pointer,
    /// after which the window is reset. Nothing, and no reset, where the
    /// window is not ready or there is a source node.
    pub fn pick_root(&mut self) -> (action: Option<CreationAction>)
        ensures
            old(self).is_ready() && old(self).source_node_id is None ==> {
                &&& final(self).is_reset()
                &&& action matches Some(CreationAction::CreateRoot { title, description, position })
                &&& title == old(self).new_node_title
                &&& description == old(self).description
                &&& Some(position) == old(self).hover_pos
            },
            !(old(self).is_ready() && old(self).source_node_id is None) ==> action is None && *final(self)
                == *old(self),
    {
        if !self.show_creator || self.source_node_id.is_some() {
            return None;
        }
        match self.hover_pos {
            Some(position) => {
                let title: String = self.new_node_title.clone();
                let description: String = self.description.clone();
                self.reset();
                Some(CreationAction::CreateRoot { title, description, position })
            },
            None => None,
        }
    }

    /// The answer to "Create Evolution Layer", which is offered where there
    /// is a source node: the node to evolve from it, a little below the
    /// place of the pointer, after which the window is reset. Nothing, and
    /// no reset, where the window is not ready or there is no source node.
    pub fn pick_evolution(&mut self) -> (action: Option<CreationAction>)
        ensures
            old(self).is_ready() && old(self).source_node_id is Some ==> {
                &&& final(self).is_reset()
                &&& action matches Some(CreationAction::CreateEvolution { base_id, title, description, position })
                &&& old(self).source_node_id == Some(base_id)
                &&& title == old(self).new_node_title
                &&& description == old(self).description
                &&& position.x == old(self).hover_pos->0.x
                &&& position.y == dropped(old(self).hover_pos->0.y as int)
            },
            !(old(self).is_ready() && old(self).source_node_id is Some) ==> action is None && *final(self)
                == *old(self),
    {
        if !self.show_creator || self.source_node_id.is_none() {
            return None;
        }
        match self.hover_pos {
            Some(hover) => {
                let base_id: String = match self.source_node_id.take() {
                    Some(id) => id,
                    None => {
                        return None;
                    },
                };
                let title: String = self.new_node_title.clone();
                let description: String = self.description.clone();
                let y: i128 = if hover.y > i128::MAX - EVOLUTION_DROP {
                    i128::MAX
                } else {
                    hover.y + EVOLUTION_DROP
                };
                self.reset();
                Some(
                    CreationAction::CreateEvolution {
                        base_id,
                        title,
                        description,
                        position: Position2D::new(hover.x, y),
                    },
                )
            },
            None => None,
        }
    }

    /// Closes the window and empties it.
    pub fn reset(&mut self)
        ensures
            final(self).is_reset(),
    {
        self.show_creator = false;
        self.new_node_title = String::new();
        self.hover_pos = None;
        self.creation_info = None;
        self.source_node_id = None;
        self.description = String::new();
    }
}

} // verus!
