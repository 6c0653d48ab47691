//! Three-component vectors.
use crate::scalar::Scalar;
use vstd::prelude::*;

verus! {

/// A vector of three independent components. Nothing is assumed of them: a
/// vector need not be normalised, nor even finite.
#[derive(Clone, Copy, Debug)]
pub struct Vector {
    /// the x component
    pub x: Scalar,
    /// the y component
    pub y: Scalar,
    /// the z component
    pub z: Scalar,
}

impl Vector {
    /// The vector whose components are all `+0.0`.
    pub open spec fn origin() -> Vector {
        Vector { x: Scalar::spec_zero(), y: Scalar::spec_zero(), z: Scalar::spec_zero() }
    }

    /// The component at `index`: 0 is x, 1 is y, 2 is z.
    pub open spec fn component(self, index: int) -> Scalar {
        if index == 0 {
            self.x
        } else if index == 1 {
            self.y
        } else {
            self.z
        }
    }

    /// Each component with its sign bit flipped.
    pub open spec fn negated(self) -> Vector {
        Vector { x: self.x.spec_neg(), y: self.y.spec_neg(), z: self.z.spec_neg() }
    }

    /// The vector as a point in homogeneous coordinates: `(x, y, z, 1)`.
    pub open spec fn spec_to_homogeneous(self) -> [Scalar; 4] {
        [self.x, self.y, self.z, Scalar::spec_one()]
    }

    /// No component is further from zero than the machine epsilon.
    pub open spec fn spec_is_negligible(self) -> bool {
        &&& self.x.spec_abs().spec_le(Scalar::spec_epsilon())
        &&& self.y.spec_abs().spec_le(Scalar::spec_epsilon())
        &&& self.z.spec_abs().spec_le(Scalar::spec_epsilon())
    }

    /// Creates a vector with all three components set to `+0.0`.
    pub fn new() -> (v: Vector)
        ensures
            v == Vector::origin(),
    {
        Vector { x: Scalar::zero(), y: Scalar::zero(), z: Scalar::zero() }
    }

    /// Returns the vector with its x component replaced by `x`.
    pub fn x(self, x: Scalar) -> (v: Vector)
        ensures
            v == (Vector { x, ..self }),
    {
        Vector { x, ..self }
    }

    /// Returns the vector with its y component replaced by `y`.
    pub fn y(self, y: Scalar) -> (v: Vector)
        ensures
            v == (Vector { y, ..self }),
    {
        Vector { y, ..self }
    }

    /// Returns the vector with its z component replaced by `z`.
    pub fn z(self, z: Scalar) -> (v: Vector)
        ensures
            v == (Vector { z, ..self }),
    {
        Vector { z, ..self }
    }

    /// Reads a vector from a slice of exactly three components, in the order
    /// x, y, z.
    pub fn from_slice(src: &[Scalar]) -> (v: Vector)
        requires
            src@.len() == 3,
        ensures
            v == (Vector { x: src@[0], y: src@[1], z: src@[2] }),
    {
        Vector { x: src[0], y: src[1], z: src[2] }
    }

    /// Promotes the vector to homogeneous coordinates, as the point
    /// `(x, y, z, 1)` that a 4x4 matrix is applied to.
    #[verifier::when_used_as_spec(spec_to_homogeneous)]
    pub fn to_homogeneous(self) -> (r: [Scalar; 4])
        ensures
            r == self.spec_to_homogeneous(),
    {
        [self.x, self.y, self.z, Scalar::one()]
    }

    /// Decides approximate equality from a difference: two vectors count as
    /// equal when the vector of their component-wise differences is
    /// negligible, that is when each of its components lies within the
    /// machine epsilon of zero. A NaN component is never negligible.
    #[verifier::when_used_as_spec(spec_is_negligible)]
    pub fn is_negligible(self) -> (r: bool)
        ensures
            r == self.spec_is_negligible(),
    {
        let bound = Scalar::epsilon();
        self.x.abs().le(bound) && self.y.abs().le(bound) && self.z.abs().le(bound)
    }
}

impl Default for Vector {
    fn default() -> (v: Vector)
        ensures
            v == Vector::origin(),
    {
        Vector::new()
    }
}

impl From<[Scalar; 3]> for Vector {
    fn from(src: [Scalar; 3]) -> (v: Vector) {
        Vector { x: src[0], y: src[1], z: src[2] }
    }
}

impl vstd::std_specs::convert::FromSpecImpl<[Scalar; 3]> for Vector {
    open spec fn obeys_from_spec() -> bool {
        true
    }

    open spec fn from_spec(src: [Scalar; 3]) -> Vector {
        Vector { x: src[0], y: src[1], z: src[2] }
    }
}

impl From<(Scalar, Scalar, Scalar)> for Vector {
    fn from(src: (Scalar, Scalar, Scalar)) -> (v: Vector) {
        Vector { x: src.0, y: src.1, z: src.2 }
    }
}

impl vstd::std_specs::convert::FromSpecImpl<(Scalar, Scalar, Scalar)> for Vector {
    open spec fn obeys_from_spec() -> bool {
        true
    }

    open spec fn from_spec(src: (Scalar, Scalar, Scalar)) -> Vector {
        Vector { x: src.0, y: src.1, z: src.2 }
    }
}

impl std::ops::Neg for Vector {
    type Output = Vector;

    /// Flips the sign of every component. Exact for every vector.
    fn neg(self) -> (v: Vector) {
        Vector { x: self.x.neg(), y: self.y.neg(), z: self.z.neg() }
    }
}

impl vstd::std_specs::ops::NegSpecImpl for Vector {
    open spec fn obeys_neg_spec() -> bool {
        true
    }

    open spec fn neg_req(self) -> bool {
        true
    }

    open spec fn neg_spec(self) -> Vector {
        self.negated()
    }
}

impl std::ops::Index<usize> for Vector {
    type Output = Scalar;

    /// The component at `index`: 0 is x, 1 is y, 2 is z.
    fn index(&self, index: usize) -> (r: &Scalar)
        ensures
            *r == self.component(index as int),
    {
        if index == 0 {
            &self.x
        } else if index == 1 {
            &self.y
        } else {
            &self.z
        }
    }
}

impl vstd::std_specs::core::IndexSpecImpl<usize> for Vector {
    open spec fn index_req(&self, index: &usize) -> bool {
        *index < 3
    }
}

impl Vector {
    /// A mutable borrow of the component at `index`: 0 is x, 1 is y, 2 is z.
    /// Whatever is written through it replaces that component and no other.
    pub fn component_mut(&mut self, index: usize) -> (r: &mut Scalar)
        requires
            index < 3,
        ensures
            *r == old(self).component(index as int),
            index == 0 ==> *final(self) == (Vector { x: *final(r), ..*old(self) }),
            index == 1 ==> *final(self) == (Vector { y: *final(r), ..*old(self) }),
            index == 2 ==> *final(self) == (Vector { z: *final(r), ..*old(self) }),
    {
        if index == 0 {
            &mut self.x
        } else if index == 1 {
            &mut self.y
        } else {
            &mut self.z
        }
    }
}

} // verus!
