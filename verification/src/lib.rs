//! Discrete two-dimensional orientations: rotations stored in tenths of a degree,
//! the direction in which one turns, and the rules for turning one orientation towards another.

pub mod errors;
pub mod orientation;
