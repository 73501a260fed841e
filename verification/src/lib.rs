//! A hierarchical mind-map graph and the engine that arranges its nodes on the
//! stacked rings of a layer cake.
//!
//! Every real-valued quantity (a radius, a height, an angle in degrees, a
//! colour channel) is held as an integer count of thousandths, so that the
//! arithmetic of the arrangement is exact and can be reasoned about.

pub mod board;
pub mod celestial;
pub mod outside;
pub mod registry;
pub mod storage;
pub mod ui;
pub mod universe;
