//! The unit sphere at the origin, and its analytic ray intersection.

use crate::intersection::{Intersectable, Intersection};
use crate::ray::Ray;
use crate::scalar::{
    fits_i64, floor_sqrt, lemma_floor_sqrt, lemma_smul_whole, lemma_tdiv_mono, sdiv, smul, Scalar,
    SCALE,
};
use crate::shapes::Shape;
use crate::tuple::{point, tdot, tdot_ok, tsub, tsub_ok, tup, Tuple};
use vstd::prelude::*;

verus! {

/// The unit sphere centered at the origin of its own object space;
/// stateless beyond its identity.
#[derive(Clone, Copy, Debug, PartialEq, Eq, Structural)]
pub struct Sphere {}

impl Sphere {
    /// The unit sphere.
    pub fn new() -> (r: Sphere)
        ensures
            r == (Sphere {  }),
    {
        Sphere {  }
    }
}

/// The vector from the sphere's center to the ray origin `o`.
pub open spec fn sphere_o2r(o: Tuple) -> Tuple {
    tsub(o, tup(0, 0, 0, SCALE as int))
}

/// Quadratic coefficient `a`: the direction dotted with itself.
pub open spec fn sphere_qa(d: Tuple) -> int {
    tdot(d, d)
}

/// Quadratic coefficient `b`: twice the direction dotted with the
/// center-to-origin vector.
pub open spec fn sphere_qb(o: Tuple, d: Tuple) -> int {
    2 * tdot(d, sphere_o2r(o))
}

/// Quadratic coefficient `c`: the center-to-origin vector dotted with
/// itself, minus one.
pub open spec fn sphere_qc(o: Tuple) -> int {
    tdot(sphere_o2r(o), sphere_o2r(o)) - SCALE
}

/// The discriminant `b*b - 4*a*c`, over the fixed-point operations.
pub open spec fn sphere_disc(o: Tuple, d: Tuple) -> int {
    smul(sphere_qb(o, d), sphere_qb(o, d)) - smul(4 * sphere_qa(d), sphere_qc(o))
}

/// The nearer hit distance `(-b - sqrt(disc)) / (2a)`.
pub open spec fn sphere_t1(o: Tuple, d: Tuple) -> int {
    sdiv(
        -sphere_qb(o, d) - floor_sqrt(sphere_disc(o, d) * (SCALE as int)),
        2 * sphere_qa(d),
    )
}

/// The farther hit distance `(-b + sqrt(disc)) / (2a)`.
pub open spec fn sphere_t2(o: Tuple, d: Tuple) -> int {
    sdiv(
        -sphere_qb(o, d) + floor_sqrt(sphere_disc(o, d) * (SCALE as int)),
        2 * sphere_qa(d),
    )
}

/// The rays the intersection accepts: a non-degenerate direction and every
/// intermediate of the quadratic in `i64` range.
pub open spec fn sphere_ok(o: Tuple, d: Tuple) -> bool {
    let fsq = floor_sqrt(sphere_disc(o, d) * (SCALE as int));
    &&& tsub_ok(o, tup(0, 0, 0, SCALE as int))
    &&& tdot_ok(d, d)
    &&& tdot_ok(d, sphere_o2r(o))
    &&& tdot_ok(sphere_o2r(o), sphere_o2r(o))
    &&& sphere_qa(d) > 0
    &&& fits_i64(sphere_qb(o, d))
    &&& fits_i64(-sphere_qb(o, d))
    &&& fits_i64(sphere_qc(o))
    &&& fits_i64(smul(sphere_qb(o, d), sphere_qb(o, d)))
    &&& fits_i64(4 * sphere_qa(d))
    &&& fits_i64(smul(4 * sphere_qa(d), sphere_qc(o)))
    &&& fits_i64(sphere_disc(o, d))
    &&& fits_i64(2 * sphere_qa(d))
    &&& sphere_disc(o, d) >= 0 ==> {
        &&& fits_i64(-sphere_qb(o, d) - fsq)
        &&& fits_i64(-sphere_qb(o, d) + fsq)
        &&& fits_i64(sphere_t1(o, d))
        &&& fits_i64(sphere_t2(o, d))
    }
}

impl Intersectable for Sphere {
    /// The quadratic's arithmetic stays in range for this ray.
    open spec fn intersect_req(&self, ray: &Ray) -> bool {
        sphere_ok(ray.origin.0, ray.direction.0)
    }

    /// No hits when the discriminant is negative; otherwise the two
    /// distances, nearer first (a tangent hit is the degenerate pair).
    open spec fn spec_intersect(&self, ray: &Ray) -> Seq<Intersection> {
        let o = ray.origin.0;
        let d = ray.direction.0;
        if sphere_disc(o, d) < 0 {
            Seq::empty()
        } else {
            seq![
                Intersection {
                    t: Scalar { m: sphere_t1(o, d) as i64 },
                    object: Shape::Sphere(*self),
                },
                Intersection {
                    t: Scalar { m: sphere_t2(o, d) as i64 },
                    object: Shape::Sphere(*self),
                },
            ]
        }
    }

    fn intersect(&self, ray: &Ray) -> (r: Vec<Intersection>)
        ensures
            r@.len() == 0 || r@.len() == 2,
            r@.len() == 2 ==> r@[0].t@ <= r@[1].t@,
    {
        let ghost o = ray.origin.0;
        let ghost dg = ray.direction.0;
        let d = ray.direction();
        let sphere_to_ray = ray.origin() - point(Scalar::zero(), Scalar::zero(), Scalar::zero());
        let a = d.dot(&d);
        proof {
            lemma_smul_whole(2, tdot(dg, sphere_o2r(o)));
        }
        let b = Scalar::from_int(2) * d.dot(&sphere_to_ray);
        let c = sphere_to_ray.dot(&sphere_to_ray) - Scalar::one();
        proof {
            lemma_smul_whole(4, sphere_qa(dg));
        }
        let discriminant = b * b - Scalar::from_int(4) * a * c;

        if discriminant.mantissa() < 0 {
            let r: Vec<Intersection> = Vec::new();
            proof {
                assert(r@ =~= self.spec_intersect(ray));
            }
            r
        } else {
            proof {
                lemma_floor_sqrt(sphere_disc(o, dg) * (SCALE as int));
            }
            let sq = discriminant.sqrt();
            let two_a = Scalar::from_int(2) * a;
            let t1 = (Scalar::zero() - b - sq) / two_a;
            let t2 = (Scalar::zero() - b + sq) / two_a;
            let mut r: Vec<Intersection> = Vec::new();
            r.push(Intersection::new(t1, Shape::Sphere(*self)));
            r.push(Intersection::new(t2, Shape::Sphere(*self)));
            proof {
                assert(r@ =~= self.spec_intersect(ray));
                lemma_sphere_hits_ordered(o, dg);
            }
            r
        }
    }
}

/// The two hit distances come back ordered: the nearer one first.
pub proof fn lemma_sphere_hits_ordered(o: Tuple, d: Tuple)
    requires
        sphere_qa(d) > 0,
        sphere_disc(o, d) >= 0,
    ensures
        sphere_t1(o, d) <= sphere_t2(o, d),
{
    lemma_floor_sqrt(sphere_disc(o, d) * (SCALE as int));
    let fsq = floor_sqrt(sphere_disc(o, d) * (SCALE as int));
    let nb = -sphere_qb(o, d);
    assert((nb - fsq) * (SCALE as int) <= (nb + fsq) * (SCALE as int)) by (nonlinear_arith)
        requires
            fsq >= 0,
    ;
    lemma_tdiv_mono((nb - fsq) * (SCALE as int), (nb + fsq) * (SCALE as int), 2 * sphere_qa(d));
}

} // verus!
