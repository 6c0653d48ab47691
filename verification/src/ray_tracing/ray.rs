//! Rays.
use crate::vector::Vector;
use vstd::prelude::*;

verus! {

/// A ray in 3D space.
#[derive(Clone, Copy, Debug)]
pub struct Ray {
    /// The starting point of the ray.
    pub start: Vector,
    /// The direction in which the ray is headed.
    ///
    /// Meant to be of unit length. Nothing here enforces that, and a shape
    /// that is handed a ray must not rely on it.
    pub direction: Vector,
}

} // verus!
