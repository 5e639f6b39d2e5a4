//! An animated grid of diagonal line segments.
//!
//! Each cell of a fixed-size grid holds one of two diagonal orientations;
//! on every tick each cell independently flips with a small probability,
//! redrawing its orientation at random.  The grid model and the geometric
//! mapping from cells to line segments live here, fully verified; a display
//! host drives the loop and presents the frames.

pub mod config;
pub mod grid;
pub mod render;


