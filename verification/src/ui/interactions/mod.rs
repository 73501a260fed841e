//! What the pointer does to the view.

pub mod drag_handler;
pub mod node_selector;
