//! The closed set of intersectable shapes.

use crate::intersection::{Intersectable, Intersection};
use crate::ray::Ray;
use crate::spheres::Sphere;
use vstd::prelude::*;

verus! {

/// Every shape the kernel can intersect; a closed tagged sum, extended by
/// adding variants.
#[non_exhaustive]
#[derive(Clone, Copy, Debug, PartialEq, Eq, Structural)]
pub enum Shape {
    Sphere(Sphere),
}

impl Intersectable for Shape {
    /// The wrapped shape's own requirement.
    open spec fn intersect_req(&self, ray: &Ray) -> bool {
        match *self {
            Shape::Sphere(sphere) => sphere.intersect_req(ray),
        }
    }

    /// The wrapped shape's own hit sequence.
    open spec fn spec_intersect(&self, ray: &Ray) -> Seq<Intersection> {
        match *self {
            Shape::Sphere(sphere) => sphere.spec_intersect(ray),
        }
    }

    fn intersect(&self, ray: &Ray) -> (r: Vec<Intersection>)
        ensures
            r@.len() == 0 || r@.len() == 2,
            r@.len() == 2 ==> r@[0].t@ <= r@[1].t@,
    {
        match *self {
            Shape::Sphere(ref sphere) => sphere.intersect(ray),
        }
    }
}

impl From<Sphere> for Shape {
    /// Wraps a sphere as a shape.
    fn from(a: Sphere) -> (r: Shape) {
        Shape::Sphere(a)
    }
}

impl vstd::std_specs::convert::FromSpecImpl<Sphere> for Shape {
    open spec fn obeys_from_spec() -> bool {
        true
    }

    open spec fn from_spec(a: Sphere) -> Shape {
        Shape::Sphere(a)
    }
}

} // verus!
