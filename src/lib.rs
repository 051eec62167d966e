//! Flattening of vector-path drawing commands into classified pen points.
//!
//! Coordinates are integers in a caller-chosen unit; curves are sampled at a
//! fixed number of parameter steps.
pub mod point;
pub mod tick_timer;
pub mod segment;
pub mod curve_math;
pub mod evaluator;
pub mod path;
pub mod laws;
