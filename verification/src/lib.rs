//! A composable dialog widget core for a small-display UI framework.
//!
//! Two composite widgets, [`dialog::Dialog`] and [`dialog::IconDialog`],
//! arrange a content region and a controls region inside an available
//! rectangle, forward input events to both children, and paint both in a
//! fixed order, so that concrete screens can be built by composing two
//! sub-components instead of duplicating layout, event and paint logic.

pub mod component;
pub mod dialog;
pub mod geometry;
pub mod image;
pub mod text;
pub mod theme;
