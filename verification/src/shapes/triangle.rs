//! Triangles, and the rules by which a ray is judged to hit one.
use crate::ray_tracing::ray_target::HitInfo;
use crate::scalar::Scalar;
use crate::vector::Vector;
use vstd::prelude::*;

verus! {

/// Three corners. Their order matters: it fixes the winding, and with it the
/// side to which the normal points. A triangle may be degenerate.
#[derive(Clone, Copy, Debug)]
pub struct Triangle {
    pub corners: [Vector; 3],
}

impl Triangle {
    /// 1 for a product that is zero or negative, 0 for any other. A NaN is
    /// neither zero nor negative.
    pub open spec fn tally(product: Scalar) -> nat {
        if product.spec_le(Scalar::spec_zero()) {
            1
        } else {
            0
        }
    }

    /// How many of the first `n` of the three products are zero or negative.
    pub open spec fn non_positive_among(products: [Scalar; 3], n: int) -> nat {
        (if n > 0 {
            Triangle::tally(products[0])
        } else {
            0
        }) + (if n > 1 {
            Triangle::tally(products[1])
        } else {
            0
        }) + (if n > 2 {
            Triangle::tally(products[2])
        } else {
            0
        })
    }

    /// The containment rule: at least two of the three products are zero or
    /// negative.
    pub open spec fn spec_contains(products: [Scalar; 3]) -> bool {
        Triangle::tally(products[0]) + Triangle::tally(products[1]) + Triangle::tally(products[2])
            >= 2
    }

    /// The outcome of an intersection test, from what was measured.
    pub open spec fn spec_hit_info(
        slope: Scalar,
        point: Vector,
        normal: Vector,
        products: [Scalar; 3],
    ) -> Option<HitInfo> {
        if slope.spec_is_zero() {
            None
        } else if Triangle::spec_contains(products) {
            Some(HitInfo::spec_bare(point, normal))
        } else {
            None
        }
    }

    /// Creates a triangle with the given corners, in this order.
    pub fn new(a: Vector, b: Vector, c: Vector) -> (t: Triangle)
        ensures
            t.corners == [a, b, c],
    {
        Triangle { corners: [a, b, c] }
    }

    /// Decides whether a point of the triangle's plane lies within the
    /// triangle.
    ///
    /// `products` holds, for the three pairs of corners, the scalar product
    /// of the two vectors that lead from the point to the corners of the
    /// pair. Seen from a point inside, any two corners lie in roughly
    /// opposite directions, and their product is negative; so the point
    /// counts as inside when at least two of the three products are zero or
    /// negative. A product of exactly zero counts, which lets in the points
    /// on an edge. The order of the pairs does not matter.
    #[verifier::when_used_as_spec(spec_contains)]
    pub fn contains(products: [Scalar; 3]) -> (r: bool)
        ensures
            r == Triangle::spec_contains(products),
    {
        let mut count: usize = 0;
        for pair in 0..3usize
            invariant
                count == Triangle::non_positive_among(products, pair as int),
                count <= pair,
        {
            if products[pair].le(Scalar::zero()) {
                count += 1;
            }
        }
        count >= 2
    }

    /// Decides whether a ray hits the triangle, from what was measured of the
    /// ray against the triangle's plane.
    ///
    /// `normal` is the normal of the plane, `slope` the scalar product of the
    /// ray's direction with it, `point` the place where the ray's line meets
    /// the plane, and `products` what [`Triangle::contains`] asks for, taken
    /// at `point`.
    ///
    /// A slope of zero, of either sign, means that the ray runs parallel to
    /// the plane: there is no hit, whatever the other values are. Otherwise
    /// the ray hits exactly if the triangle contains `point`, and the hit
    /// carries `point` and `normal` and nothing else. A point behind the
    /// ray's start is not told apart from one ahead of it.
    #[verifier::when_used_as_spec(spec_hit_info)]
    pub fn hit_info(
        slope: Scalar,
        point: Vector,
        normal: Vector,
        products: [Scalar; 3],
    ) -> (r: Option<HitInfo>)
        ensures
            r == Triangle::spec_hit_info(slope, point, normal, products),
            slope.spec_is_zero() ==> r is None,
    {
        if slope.is_zero() {
            return None;
        }
        if Triangle::contains(products) {
            Some(HitInfo::bare(point, normal))
        } else {
            None
        }
    }
}

impl std::ops::Index<usize> for Triangle {
    type Output = Vector;

    /// The corner at `index`.
    fn index(&self, index: usize) -> (r: &Vector)
        ensures
            *r == self.corners[index as int],
    {
        &self.corners[index]
    }
}

impl vstd::std_specs::core::IndexSpecImpl<usize> for Triangle {
    open spec fn index_req(&self, index: &usize) -> bool {
        *index < 3
    }
}

impl Triangle {
    /// A mutable borrow of the corner at `index`. Whatever is written through
    /// it replaces that corner and no other.
    pub fn corner_mut(&mut self, index: usize) -> (r: &mut Vector)
        requires
            index < 3,
        ensures
            *r == old(self).corners[index as int],
            final(self).corners@ == old(self).corners@.update(index as int, *final(r)),
    {
        &mut self.corners[index]
    }
}

} // verus!
