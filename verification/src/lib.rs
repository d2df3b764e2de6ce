//! Escape-time imagery of the Mandelbrot set: the pixel grid and its
//! row-major layout, the per-pixel iteration counts, the palette that turns
//! a count into a colour, the two image encoders, and the state of the
//! interactive generator that drives them.

pub mod grid;
pub mod escape;
pub mod pixel;
pub mod palette;
pub mod encode;
pub mod session;
