//! The layer cake on which a graph is shown, and the state of small controls.

pub mod cake;
pub mod components;
pub mod cosmos_view;
pub mod gui;
pub mod hierarchy;
pub mod interactions;
pub mod laws;
pub mod node_view;
pub mod renderer_3d;
pub mod scene_3d;
pub mod space_view;
pub mod start_menu;
pub mod views;
