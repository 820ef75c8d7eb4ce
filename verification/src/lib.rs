//! A software solar-system visualizer built on exact fixed-point arithmetic.
//!
//! Every scalar quantity (distances, angles, depths, blend factors) is a
//! two's-complement integer carrying a binary scale, so the Kepler solver,
//! the camera state machine and the depth-composited framebuffer can all be
//! specified and verified exactly.

pub mod camera;
pub mod color;
pub mod fixed;
pub mod framebuffer;
pub mod mat4;
pub mod orbital;
pub mod render;
pub mod star;
pub mod stars;
pub mod vec3;
pub mod warp;
