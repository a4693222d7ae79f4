//! Hit records and the contract of intersectable geometry.

use crate::ray::Ray;
use crate::scalar::Scalar;
use crate::shapes::Shape;
use vstd::prelude::*;

verus! {

/// A hit record: the distance `t` along the ray, and the intersected
/// geometry.
#[derive(Clone, Copy, Debug)]
pub struct Intersection {
    pub t: Scalar,
    pub object: Shape,
}

impl Intersection {
    /// The hit record (t, object).
    pub fn new(t: Scalar, object: Shape) -> (r: Intersection)
        ensures
            r.t == t,
            r.object == object,
    {
        Intersection { t, object }
    }
}

/// Geometry that a ray can hit. `spec_intersect` names the exact ordered
/// hit sequence an implementation returns; `intersect_req` bounds the rays
/// it accepts.
pub trait Intersectable {
    /// Which rays the implementation accepts: its arithmetic stays in
    /// range and the direction is not degenerate.
    spec fn intersect_req(&self, ray: &Ray) -> bool;

    /// The hit records the implementation returns, ordered by `t`.
    spec fn spec_intersect(&self, ray: &Ray) -> Seq<Intersection>;

    /// The intersections of `ray` with this geometry, ascending by `t`.
    fn intersect(&self, ray: &Ray) -> (r: Vec<Intersection>)
        requires
            self.intersect_req(ray),
        ensures
            r@ == self.spec_intersect(ray),
    ;
}

} // verus!
