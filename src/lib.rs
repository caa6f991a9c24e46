//! Integer core of an escape-time and root-finding fractal renderer: the
//! iteration control of the kernels, the inside-set colour rule, and the
//! row-major assembly and packaging of the RGBA pixel buffer.

pub mod color;
pub mod escape;
pub mod grid;
pub mod image;
pub mod newton;

pub use crate::image::JuliaResult;
