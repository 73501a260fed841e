//! The graph data: node kinds, relations, positions, nodes and the graph itself.

pub mod graph;
pub mod node;
pub mod node_type;
pub mod position;
pub mod relation;

pub use graph::Graph;
pub use node::Node;
pub use node_type::NodeType;
pub use position::{LayerPosition, Position2D, Position3D};
pub use relation::{Relation, RelationType};
