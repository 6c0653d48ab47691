//! A small 3D geometry kernel: vectors, 4x4 matrices, rays and triangles.
//!
//! Numbers are held as IEEE-754 single-precision bit patterns ([`Scalar`]).
//! The kernel owns everything that can be decided on those patterns exactly:
//! classification, sign and order tests, negation, the layout of every matrix
//! it builds, and the rules by which a ray is judged to hit a triangle.
//! Rounding arithmetic is left to the caller, who hands its results in.
pub mod scalar;

pub use scalar::Scalar;

pub mod vector;

pub use vector::Vector;

pub mod matrix;

pub use matrix::Matrix;

pub mod ray_tracing;
pub mod shapes;
