//! The state of the small windows that are opened over the view.

pub mod connection_menu;
pub mod node_creator;
pub mod node_editor;
