//! Geometry primitives.

pub mod rect;
pub mod single;
