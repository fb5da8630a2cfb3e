//! Geometric vectors of a fixed, non-zero dimension with elementwise arithmetic.
pub mod text;
pub mod vectors;

pub use text::render_coordinates;
pub use vectors::{Vector, VectorError};
