//! A backend-agnostic model of a two-dimensional vector scene: geometry,
//! paint, paths, scene objects and frames, together with the exact list of
//! drawing operations that a frame issues to a rasteriser when it is drawn.
//!
//! Every quantity is an exact integer or a fraction of integers, so that the
//! operations a frame emits can be stated and proved without rounding.

pub mod geometry;
pub mod paint;
pub mod path;
pub mod command;
pub mod traversal;
pub mod frame;
pub mod driver;
pub mod laws;
pub mod image;
