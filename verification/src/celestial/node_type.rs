use vstd::prelude::*;

verus! {

/// The kind of a node. The first five kinds belong to the layer cake; the
/// next four to the older orbit scheme; the last two are general helpers.
#[derive(Clone, Copy, Debug, PartialEq, Eq, Structural)]
pub enum NodeType {
    Root,
    Concept,
    Task,
    Note,
    Evolution,
    Star,
    Planet,
    Satellite,
    Asteroid,
    Category,
    Base,
}

impl NodeType {
    /// The name shown for this kind.
    pub open spec fn name(self) -> Seq<char> {
        match self {
            NodeType::Root => "Root"@,
            NodeType::Concept => "Concept"@,
            NodeType::Task => "Task"@,
            NodeType::Note => "Note"@,
            NodeType::Evolution => "Evolution"@,
            NodeType::Star => "Star"@,
            NodeType::Planet => "Planet"@,
            NodeType::Satellite => "Satellite"@,
            NodeType::Asteroid => "Asteroid"@,
            NodeType::Category => "Category"@,
            NodeType::Base => "Base"@,
        }
    }

    /// The kinds that a node of this kind may have as children, in the order
    /// in which they are offered.
    pub open spec fn valid_children(self) -> Seq<NodeType> {
        match self {
            NodeType::Root => seq![NodeType::Concept, NodeType::Category],
            NodeType::Concept => seq![NodeType::Task, NodeType::Note],
            NodeType::Task => seq![NodeType::Note],
            NodeType::Note => seq![],
            NodeType::Evolution => seq![NodeType::Evolution],
            NodeType::Star => seq![NodeType::Planet],
            NodeType::Planet => seq![NodeType::Satellite],
            NodeType::Satellite => seq![NodeType::Asteroid],
            NodeType::Asteroid => seq![],
            NodeType::Category => seq![NodeType::Base, NodeType::Concept],
            NodeType::Base => seq![NodeType::Task, NodeType::Note],
        }
    }

    /// The kind that a child gets by default, if this kind has children at all.
    pub open spec fn successor(self) -> Option<NodeType> {
        match self {
            NodeType::Root => Some(NodeType::Concept),
            NodeType::Concept => Some(NodeType::Task),
            NodeType::Task => Some(NodeType::Note),
            NodeType::Note => None,
            NodeType::Star => Some(NodeType::Planet),
            NodeType::Planet => Some(NodeType::Satellite),
            NodeType::Satellite => Some(NodeType::Asteroid),
            NodeType::Asteroid => None,
            NodeType::Category => Some(NodeType::Base),
            NodeType::Base => Some(NodeType::Task),
            NodeType::Evolution => Some(NodeType::Evolution),
        }
    }

    /// The tier of the cake on which a node of this kind starts out.
    pub open spec fn home_layer(self) -> nat {
        match self {
            NodeType::Root | NodeType::Star => 0,
            NodeType::Concept | NodeType::Category | NodeType::Planet => 1,
            NodeType::Task | NodeType::Base | NodeType::Satellite => 2,
            NodeType::Note | NodeType::Asteroid => 3,
            NodeType::Evolution => 4,
        }
    }

    /// The pictogram shown for this kind.
    pub open spec fn pictogram(self) -> Seq<char> {
        match self {
            NodeType::Root => "🌌"@,
            NodeType::Concept => "💭"@,
            NodeType::Task => "📋"@,
            NodeType::Note => "📝"@,
            NodeType::Evolution => "🔄"@,
            NodeType::Star => "⭐"@,
            NodeType::Planet => "🪐"@,
            NodeType::Satellite => "🛰️"@,
            NodeType::Asteroid => "☄️"@,
            NodeType::Category => "📁"@,
            NodeType::Base => "🔧"@,
        }
    }

    pub fn display_name(&self) -> (name: &'static str)
        ensures
            name@ == self.name(),
    {
        match self {
            NodeType::Root => "Root",
            NodeType::Concept => "Concept",
            NodeType::Task => "Task",
            NodeType::Note => "Note",
            NodeType::Evolution => "Evolution",
            NodeType::Star => "Star",
            NodeType::Planet => "Planet",
            NodeType::Satellite => "Satellite",
            NodeType::Asteroid => "Asteroid",
            NodeType::Category => "Category",
            NodeType::Base => "Base",
        }
    }

    pub fn get_valid_children(&self) -> (kinds: Vec<NodeType>)
        ensures
            kinds@ == self.valid_children(),
    {
        let kinds = match self {
            NodeType::Root => vec![NodeType::Concept, NodeType::Category],
            NodeType::Concept => vec![NodeType::Task, NodeType::Note],
            NodeType::Task => vec![NodeType::Note],
            NodeType::Note => vec![],
            NodeType::Evolution => vec![NodeType::Evolution],
            NodeType::Star => vec![NodeType::Planet],
            NodeType::Planet => vec![NodeType::Satellite],
            NodeType::Satellite => vec![NodeType::Asteroid],
            NodeType::Asteroid => vec![],
            NodeType::Category => vec![NodeType::Base, NodeType::Concept],
            NodeType::Base => vec![NodeType::Task, NodeType::Note],
        };
        kinds
    }

    pub fn next_level(&self) -> (next: Option<NodeType>)
        ensures
            next == self.successor(),
    {
        match self {
            NodeType::Root => Some(NodeType::Concept),
            NodeType::Concept => Some(NodeType::Task),
            NodeType::Task => Some(NodeType::Note),
            NodeType::Note => None,
            NodeType::Star => Some(NodeType::Planet),
            NodeType::Planet => Some(NodeType::Satellite),
            NodeType::Satellite => Some(NodeType::Asteroid),
            NodeType::Asteroid => None,
            NodeType::Category => Some(NodeType::Base),
            NodeType::Base => Some(NodeType::Task),
            NodeType::Evolution => Some(NodeType::Evolution),
        }
    }

    pub fn cake_layer(&self) -> (layer: usize)
        ensures
            layer == self.home_layer(),
            layer <= 4,
    {
        match self {
            NodeType::Root => 0,
            NodeType::Concept | NodeType::Category => 1,
            NodeType::Task | NodeType::Base => 2,
            NodeType::Note => 3,
            NodeType::Evolution => 4,
            NodeType::Star => 0,
            NodeType::Planet => 1,
            NodeType::Satellite => 2,
            NodeType::Asteroid => 3,
        }
    }

    pub fn emoji(&self) -> (glyph: &'static str)
        ensures
            glyph@ == self.pictogram(),
    {
        match self {
            NodeType::Root => "🌌",
            NodeType::Concept => "💭",
            NodeType::Task => "📋",
            NodeType::Note => "📝",
            NodeType::Evolution => "🔄",
            NodeType::Star => "⭐",
            NodeType::Planet => "🪐",
            NodeType::Satellite => "🛰️",
            NodeType::Asteroid => "☄️",
            NodeType::Category => "📁",
            NodeType::Base => "🔧",
        }
    }

    /// Every default child kind is one of the kinds allowed as a child.
    pub proof fn successor_is_valid_child(kind: NodeType)
        ensures
            kind.successor() matches Some(next) ==> kind.valid_children().contains(next),
    {
        match kind.successor() {
            Some(next) => {
                assert(kind.valid_children()[0] == next);
            },
            None => {},
        }
    }
}

} // verus!
