//! The intersection protocol: one query that a shape answers itself, and two
//! that are derived from it.
use crate::ray_tracing::ray::Ray;
use crate::scalar::Scalar;
use crate::vector::Vector;
use vstd::prelude::*;

verus! {

/// What is known about the place where a ray hit a shape.
///
/// Every shape reports the point and the normal. The other fields are there
/// for shapes that know more, and stay `None` for those that do not.
#[derive(Clone, Copy, Debug)]
pub struct HitInfo {
    /// The point where the ray hit.
    pub point: Vector,
    /// The normal of the shape at that point. A reflected ray is computed
    /// from it.
    pub normal: Vector,
    /// The colour of the shape at that point, if the shape has one.
    pub color: Option<u32>,
    /// How strongly the shape reflects, if the shape knows.
    pub reflect_factor: Option<Scalar>,
}

impl HitInfo {
    /// The point of a hit, or `None` where there was no hit.
    pub open spec fn spec_point_of(info: Option<HitInfo>) -> Option<Vector> {
        match info {
            Some(hit) => Some(hit.point),
            None => None,
        }
    }

    /// A hit of which only the point and the normal are known.
    pub open spec fn spec_bare(point: Vector, normal: Vector) -> HitInfo {
        HitInfo { point, normal, color: None, reflect_factor: None }
    }

    /// Builds the record of a hit of which only the point and the normal are
    /// known: colour and reflectivity are absent.
    #[verifier::when_used_as_spec(spec_bare)]
    pub fn bare(point: Vector, normal: Vector) -> (hit: HitInfo)
        ensures
            hit == HitInfo::spec_bare(point, normal),
    {
        HitInfo { point, normal, color: None, reflect_factor: None }
    }

    /// Reduces the answer to the full query to the point alone: the point of
    /// the hit where there is one, `None` where there is none.
    #[verifier::when_used_as_spec(spec_point_of)]
    pub fn point_of(info: Option<HitInfo>) -> (r: Option<Vector>)
        ensures
            r == HitInfo::spec_point_of(info),
    {
        match info {
            Some(hit) => Some(hit.point),
            None => None,
        }
    }
}

impl Default for HitInfo {
    /// A hit at the origin with a zero normal and nothing else known.
    fn default() -> (hit: HitInfo)
        ensures
            hit == HitInfo::spec_bare(Vector::origin(), Vector::origin()),
    {
        HitInfo::bare(Vector::new(), Vector::new())
    }
}

/// A shape that can tell where a ray hits it.
///
/// A shape implements `hit_info` and nothing else. The two other queries are
/// answered here, from one call of `hit_info` each, so that none of the three
/// can contradict what `hit_info` is able to return for the same shape and
/// ray.
pub trait RayTarget {
    /// The full record of where `ray` hits the shape, or `None` if it misses.
    fn hit_info(&self, ray: &Ray) -> Option<HitInfo>;

    /// The point where `ray` hits the shape, or `None` if it misses: the
    /// point of an answer that `hit_info` gives for this shape and ray.
    fn hit_point(&self, ray: &Ray) -> (r: Option<Vector>)
        ensures
            exists|info: Option<HitInfo>| #[trigger]
                call_ensures(Self::hit_info, (self, ray), info) && r == HitInfo::spec_point_of(
                    info,
                ),
    {
        HitInfo::point_of(self.hit_info(ray))
    }

    /// Whether `ray` hits the shape: whether an answer that `hit_info` gives
    /// for this shape and ray is a hit.
    fn hits(&self, ray: &Ray) -> (r: bool)
        ensures
            exists|info: Option<HitInfo>| #[trigger]
                call_ensures(Self::hit_info, (self, ray), info) && r == info.is_some(),
    {
        self.hit_point(ray).is_some()
    }
}

} // verus!
