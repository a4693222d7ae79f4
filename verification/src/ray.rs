//! Rays: an origin point and a direction vector.

use crate::intersection::{Intersectable, Intersection};
use crate::scalar::Scalar;
use crate::shapes::Shape;
use crate::tuple::{tadd, tadd_ok, tscale, tscale_ok, Point, Vector};
use vstd::prelude::*;

verus! {

/// An immutable ray: origin plus direction, never mutated after creation.
#[derive(Clone, Copy, Debug)]
pub struct Ray {
    pub origin: Point,
    pub direction: Vector,
}

impl Ray {
    /// The ray starting at `origin` toward `direction`.
    pub fn new(origin: Point, direction: Vector) -> (r: Ray)
        ensures
            r.origin == origin,
            r.direction == direction,
    {
        Ray { origin, direction }
    }

    /// The ray's origin.
    pub fn origin(&self) -> (r: Point)
        ensures
            r == self.origin,
    {
        self.origin
    }

    /// The ray's direction.
    pub fn direction(&self) -> (r: Vector)
        ensures
            r == self.direction,
    {
        self.direction
    }

    /// The point `origin + direction * t`, for any `t`, negative values
    /// landing behind the origin.
    pub fn position(&self, t: Scalar) -> (r: Point)
        requires
            tscale_ok(self.direction.0, t@),
            tadd_ok(self.origin.0, tscale(self.direction.0, t@)),
        ensures
            r.0 == tadd(self.origin.0, tscale(self.direction.0, t@)),
    {
        self.origin + self.direction * t
    }

    /// The shape's intersections with this ray, ordered by `t`.
    pub fn intersects(&self, shape: Shape) -> (r: Vec<Intersection>)
        requires
            shape.intersect_req(self),
        ensures
            r@ == shape.spec_intersect(self),
            r@.len() == 0 || r@.len() == 2,
            r@.len() == 2 ==> r@[0].t@ <= r@[1].t@,
    {
        shape.intersect(self)
    }
}

} // verus!
