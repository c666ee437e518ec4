//! A grid-based pseudo-3D ray-casting renderer core.
//!
//! All geometry is carried in fixed-point integers: positions and distances
//! in thousandths of a grid unit, angles in thousandths of a degree, and
//! trigonometric values scaled by one thousand. The windowing collaborator
//! converts these to whatever its drawing primitives need.

pub mod dda;
pub mod fixed;
pub mod grid;
pub mod input;
pub mod project;
pub mod ray;
pub mod scene;
pub mod trig;
