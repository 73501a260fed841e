//! The screens of the application.

pub mod cosmos_view;
pub mod start_menu;
