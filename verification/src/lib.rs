//! Constant-distance right rotation of a vector of four 32-bit lanes.

pub mod lane;
pub mod vector;
pub mod rotate;
pub mod laws;
