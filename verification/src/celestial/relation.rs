use vstd::prelude::*;
use crate::celestial::node_type::NodeType;
use crate::outside::{now_millis, random_uuid};

verus! {

/// The kind of a link between two nodes.
#[derive(Clone, Copy, Debug, PartialEq, Eq, Structural)]
pub enum RelationType {
    Parent,
    Child,
    Sibling,
    Orbit,
    Evolution,
    Reference,
    Hierarchy,
    Dependency,
    Association,
}

impl RelationType {
    /// The name shown for this kind of link.
    pub open spec fn name(self) -> Seq<char> {
        match self {
            RelationType::Parent => "Parent"@,
            RelationType::Child => "Child"@,
            RelationType::Sibling => "Sibling"@,
            RelationType::Orbit => "Orbit"@,
            RelationType::Evolution => "Evolution"@,
            RelationType::Reference => "Reference"@,
            RelationType::Hierarchy => "Hierarchy"@,
            RelationType::Dependency => "Dependency"@,
            RelationType::Association => "Association"@,
        }
    }

    /// The colour of this kind of link: red, green, blue and alpha in thousandths.
    pub open spec fn tint(self) -> Seq<u16> {
        match self {
            RelationType::Parent => seq![1000u16, 800u16, 0u16, 1000u16],
            RelationType::Child => seq![800u16, 1000u16, 0u16, 1000u16],
            RelationType::Sibling => seq![0u16, 800u16, 1000u16, 1000u16],
            RelationType::Orbit => seq![600u16, 800u16, 1000u16, 1000u16],
            RelationType::Evolution => seq![600u16, 1000u16, 600u16, 1000u16],
            RelationType::Reference => seq![1000u16, 600u16, 600u16, 1000u16],
            RelationType::Hierarchy => seq![800u16, 800u16, 800u16, 1000u16],
            RelationType::Dependency => seq![1000u16, 600u16, 0u16, 1000u16],
            RelationType::Association => seq![800u16, 600u16, 1000u16, 1000u16],
        }
    }

    /// The width of the line of this kind of link, in thousandths.
    pub open spec fn width(self) -> int {
        match self {
            RelationType::Parent | RelationType::Child => 3000,
            RelationType::Hierarchy => 2500,
            RelationType::Evolution | RelationType::Dependency => 2000,
            _ => 1500,
        }
    }

    /// The kind of the same link read from its other end.
    pub open spec fn reversed(self) -> RelationType {
        match self {
            RelationType::Parent => RelationType::Child,
            RelationType::Child => RelationType::Parent,
            other => other,
        }
    }

    pub fn display_name(&self) -> (name: &'static str)
        ensures
            name@ == self.name(),
    {
        match self {
            RelationType::Parent => "Parent",
            RelationType::Child => "Child",
            RelationType::Sibling => "Sibling",
            RelationType::Orbit => "Orbit",
            RelationType::Evolution => "Evolution",
            RelationType::Reference => "Reference",
            RelationType::Hierarchy => "Hierarchy",
            RelationType::Dependency => "Dependency",
            RelationType::Association => "Association",
        }
    }

    pub fn color(&self) -> (tint: [u16; 4])
        ensures
            tint@ == self.tint(),
    {
        let tint: [u16; 4] = match self {
            RelationType::Parent => [1000, 800, 0, 1000],
            RelationType::Child => [800, 1000, 0, 1000],
            RelationType::Sibling => [0, 800, 1000, 1000],
            RelationType::Orbit => [600, 800, 1000, 1000],
            RelationType::Evolution => [600, 1000, 600, 1000],
            RelationType::Reference => [1000, 600, 600, 1000],
            RelationType::Hierarchy => [800, 800, 800, 1000],
            RelationType::Dependency => [1000, 600, 0, 1000],
            RelationType::Association => [800, 600, 1000, 1000],
        };
        tint
    }

    pub fn thickness(&self) -> (width: u32)
        ensures
            width == self.width(),
    {
        match self {
            RelationType::Parent | RelationType::Child => 3000,
            RelationType::Hierarchy => 2500,
            RelationType::Evolution => 2000,
            RelationType::Dependency => 2000,
            _ => 1500,
        }
    }
}

/// A directed link from one node to another. `weight` is in thousandths;
/// `created_at` is in milliseconds since the Unix epoch.
#[derive(Clone, Debug)]
pub struct Relation {
    pub id: String,
    pub source_id: String,
    pub target_id: String,
    pub relation_type: RelationType,
    pub label: Option<String>,
    pub weight: i128,
    pub created_at: i64,
}

impl Relation {
    /// Whether a node of kind `source` may be the parent of one of kind `target`.
    pub open spec fn hierarchy_allows(source: NodeType, target: NodeType) -> bool {
        ||| source == NodeType::Root && (target == NodeType::Concept || target == NodeType::Category)
        ||| source == NodeType::Concept && (target == NodeType::Task || target == NodeType::Note)
        ||| source == NodeType::Task && target == NodeType::Note
        ||| source == NodeType::Category && target == NodeType::Base
        ||| source == NodeType::Base && (target == NodeType::Task || target == NodeType::Note)
        ||| source == NodeType::Star && target == NodeType::Planet
        ||| source == NodeType::Planet && target == NodeType::Satellite
        ||| source == NodeType::Satellite && target == NodeType::Asteroid
    }

    /// A link of weight one, without a label, under a fresh random identifier
    /// and stamped with the current time.
    pub fn new(source_id: String, target_id: String, relation_type: RelationType) -> (relation: Self)
        ensures
            relation.source_id == source_id,
            relation.target_id == target_id,
            relation.relation_type == relation_type,
            relation.label is None,
            relation.weight == 1000,
            relation.id@.len() == 36,
    {
        Self {
            id: random_uuid(),
            source_id,
            target_id,
            relation_type,
            label: None,
            weight: 1000,
            created_at: now_millis(),
        }
    }

    pub fn with_label(self, label: String) -> (relation: Self)
        ensures
            relation == (Relation { label: Some(label), ..self }),
    {
        let mut relation = self;
        relation.label = Some(label);
        relation
    }

    pub fn with_weight(self, weight: i128) -> (relation: Self)
        ensures
            relation == (Relation { weight, ..self }),
    {
        let mut relation = self;
        relation.weight = weight;
        relation
    }

    pub fn is_valid_hierarchy(source_type: &NodeType, target_type: &NodeType) -> (valid: bool)
        ensures
            valid == Self::hierarchy_allows(*source_type, *target_type),
    {
        match (*source_type, *target_type) {
            (NodeType::Root, NodeType::Concept) => true,
            (NodeType::Root, NodeType::Category) => true,
            (NodeType::Concept, NodeType::Task) => true,
            (NodeType::Concept, NodeType::Note) => true,
            (NodeType::Task, NodeType::Note) => true,
            (NodeType::Category, NodeType::Base) => true,
            (NodeType::Base, NodeType::Task) => true,
            (NodeType::Base, NodeType::Note) => true,
            (NodeType::Star, NodeType::Planet) => true,
            (NodeType::Planet, NodeType::Satellite) => true,
            (NodeType::Satellite, NodeType::Asteroid) => true,
            _ => false,
        }
    }

    pub fn is_parent_child(&self) -> (yes: bool)
        ensures
            yes == (self.relation_type == RelationType::Parent || self.relation_type
                == RelationType::Child),
    {
        match self.relation_type {
            RelationType::Parent | RelationType::Child => true,
            _ => false,
        }
    }

    pub fn reverse_type(&self) -> (kind: RelationType)
        ensures
            kind == self.relation_type.reversed(),
    {
        match self.relation_type {
            RelationType::Parent => RelationType::Child,
            RelationType::Child => RelationType::Parent,
            other => other,
        }
    }
}

/// Reading a link from its other end twice gives the link back.
pub proof fn reversed_twice(kind: RelationType)
    ensures
        kind.reversed().reversed() == kind,
{}

/// Every pair that the hierarchy allows is a pair of a kind and one of its
/// valid child kinds.
pub proof fn hierarchy_is_among_valid_children(source: NodeType, target: NodeType)
    requires
        Relation::hierarchy_allows(source, target),
    ensures
        source.valid_children().contains(target),
{
    let kinds = source.valid_children();
    assert(kinds[0] == target || kinds[1] == target);
}

} // verus!
