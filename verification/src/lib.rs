//! A free-look camera motion model in fixed-point arithmetic.

pub mod camera;
pub mod capture;
pub mod fixed;
pub mod frame;
pub mod input;
pub mod laws;
pub mod systems;
pub mod vector;
