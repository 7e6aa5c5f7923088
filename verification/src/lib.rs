//! Geometric and linear-algebra primitives over an exact fixed-point scalar.
//!
//! The crate provides vectors, 3x3 matrices, bounding boxes, edges and the
//! decompositions built on them: a Jacobi eigendecomposition of a packed
//! symmetric 3x3 matrix, a full 3x3 singular value decomposition, the
//! projection of an SVD triple onto a proper rotation, and the analytic
//! Jacobian of the decomposition.  Every scalar is a [`fx::Fix`], a binary
//! fixed-point number whose arithmetic is total and exactly specified, so
//! every routine here is a pure, deterministic function of its inputs.

pub mod aabb;
pub mod ccd2;
pub mod edge2;
pub mod edge3;
pub mod fx;
pub mod mat3_col_major;
pub mod mat3_row_major;
pub mod mat3_sym;
pub mod polynomial_root;
pub mod quaternion;
pub mod tet;
pub mod trig;
pub mod vec2;
pub mod vec3;
pub mod vecn;
