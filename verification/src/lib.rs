//! The verified core of an SVG viewer: export post-processing, sibling-file
//! navigation, the discrete part of the view state and the controller's
//! decisions. Everything that draws, reads files or rasterizes lives outside
//! this library and hands it plain values.

pub mod actions;
pub mod controller;
pub mod decimal;
pub mod error;
pub mod export;
pub mod file_navigator;
pub mod listing;
pub mod natural;
pub mod render;
pub mod shortcuts;
pub mod viewport;
