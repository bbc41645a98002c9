//! A linear-algebra library for a camera and transform pipeline: 4x4
//! matrices and 3-component vectors of Q32.32 fixed-point scalars, with
//! translation, scale, transpose, multiplication, cross and dot products,
//! normalization, look-at, perspective and orthographic projections, and a
//! camera that caches its last-computed projection matrices.

pub mod camera;
pub mod linear_algebra;
pub mod math;
pub mod matrix_wrapper;
pub mod scalar;
pub mod vector_wrapper;
