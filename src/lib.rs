//! Path-tracer core: 8-bit colors, the output image grid, the assembly of
//! rendered rows into an image, and the command line.
pub mod cli;
pub mod color;
pub mod image;
pub mod integrator;
pub mod render;
