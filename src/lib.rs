//! Fixed-point wireframe renderer: a model rotated by complex-number
//! multiplication, projected with one integer division per axis and drawn
//! with Bresenham's line algorithm, plus the per-frame counter that reports
//! frames per interval.
//!
//! The library is pure computation: the display, the timer interrupt and the
//! serial port belong to the caller.

pub mod fps;
pub mod frame;
pub mod mesh;
pub mod raster;
pub mod render;
pub mod transform;
pub mod vec;
