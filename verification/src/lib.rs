//! A small affine-transform library for 3D graphics, built on exact
//! fixed-point arithmetic.
//!
//! Scalars are `i64` counts of `1/10000`: the value `1.0` is stored as
//! `10000` (the constant [`fixed::ONE`]). Working over scaled integers
//! instead of floating point keeps every operation exactly specified, so
//! the algebraic laws of the library (identity, associativity of the
//! exact product, translation of points, full-turn rotations) are proved,
//! not sampled.
//!
//! Matrices are 4x4, row-major, and follow the row-vector convention: a
//! point `p` is transformed by right-multiplication, `p' = p_h * M`, where
//! `p_h` is `p` extended with a homogeneous `1`. Translation components
//! therefore live in the last row of a matrix, and the chained product
//! (`mat4_vec_mul`) applies the first matrix of its list to a point
//! first.

pub mod fixed;
pub mod model;
pub mod trig;
pub mod linalg;
pub mod laws;

