//! Escape-time rasterization of the Mandelbrot set.
//!
//! The library owns everything about a frame that can be stated exactly:
//! validation of the requested raster and plane region, the count of
//! recurrence steps until the escape test first fires, the banded grayscale
//! palette, and the assembly of the RGBA pixel buffer. The quadratic
//! recurrence itself runs in `f64` arithmetic, which the verifier does not
//! model; a driver performs those steps and hands the library the outcome of
//! the escape test at each step, and plane coordinates as their IEEE 754 bit
//! patterns.

pub mod escape;
pub mod plane;
pub mod render;
