//! Fixed-point cosine and sine.
//!
//! Angles are scalars in radians. The angle is reduced modulo two pi into
//! the first circle, folded into the first quadrant, and evaluated there by
//! a Maclaurin polynomial in Horner form over the fixed-point operations.
//! The contracts pin the result exactly: each function returns precisely the
//! value of its specification polynomial, truncations included.

use crate::scalar::{fits_i64, sabs, smul, tdiv, Scalar, SCALE};
use vstd::prelude::*;

verus! {

/// Mantissa of pi.
pub const PI_M: i64 = 3_141_592_653;

/// Mantissa of pi over two.
pub const HALF_PI_M: i64 = 1_570_796_326;

/// Mantissa of two pi.
pub const TWO_PI_M: i64 = 6_283_185_307;

/// Upper bound on the mantissa handed to the quadrant polynomials.
pub const TRIG_ARG_M: i64 = 1_600_000_000;

/// The cosine Maclaurin polynomial on the first quadrant, in Horner form
/// over fixed-point operations: terms through the twelfth power.
pub open spec fn scos_poly(x: int) -> int {
    let q = smul(x, x);
    let t5 = -275 + smul(q, 2);
    let t4 = 24801 + smul(q, t5);
    let t3 = -1388888 + smul(q, t4);
    let t2 = 41666666 + smul(q, t3);
    let t1 = -500000000 + smul(q, t2);
    1000000000 + smul(q, t1)
}

/// The sine Maclaurin polynomial on the first quadrant, in Horner form over
/// fixed-point operations: terms through the eleventh power.
pub open spec fn ssin_poly(x: int) -> int {
    let q = smul(x, x);
    let t4 = 2755 + smul(q, -25);
    let t3 = -198412 + smul(q, t4);
    let t2 = 8333333 + smul(q, t3);
    let t1 = -166666666 + smul(q, t2);
    smul(x, 1000000000 + smul(q, t1))
}

/// The angle brought into the first circle: the Euclidean remainder of the
/// mantissa modulo two pi, in `[0, TWO_PI_M)`.
pub open spec fn sreduce(r: int) -> int {
    r % (TWO_PI_M as int)
}

/// Cosine of an angle in radians, by quadrant folding and `scos_poly`.
pub open spec fn scos(r: int) -> int {
    let x = sreduce(r);
    if x <= HALF_PI_M {
        scos_poly(x)
    } else if x <= PI_M {
        -scos_poly(PI_M - x)
    } else if x <= PI_M + HALF_PI_M {
        -scos_poly(x - PI_M)
    } else {
        scos_poly(TWO_PI_M - x)
    }
}

/// Sine of an angle in radians, by quadrant folding and `ssin_poly`.
pub open spec fn ssin(r: int) -> int {
    let x = sreduce(r);
    if x <= HALF_PI_M {
        ssin_poly(x)
    } else if x <= PI_M {
        ssin_poly(PI_M - x)
    } else if x <= PI_M + HALF_PI_M {
        -ssin_poly(x - PI_M)
    } else {
        -ssin_poly(TWO_PI_M - x)
    }
}

/// One Horner step factor: `smul(q, a)`, with its magnitude bounded by the
/// bound on `a`.
fn mulq(q: i64, a: i64, Ghost(ba): Ghost<int>) -> (r: i64)
    requires
        0 <= q <= 2_600_000_000,
        sabs(a as int) <= ba,
        ba <= 2_000_000_000_000,
    ensures
        r as int == smul(q as int, a as int),
        sabs(r as int) <= tdiv(2_600_000_000 * ba, SCALE as int),
{
    proof {
        crate::scalar::lemma_smul_abs(q as int, a as int, 2_600_000_000, ba);
    }
    ((q as i128 * a as i128) / (SCALE as i128)) as i64
}

/// The square of the argument, `smul(x, x)`, bounded by `2_600_000_000`.
fn argsq(x: i64) -> (q: i64)
    requires
        0 <= x <= TRIG_ARG_M,
    ensures
        q as int == smul(x as int, x as int),
        0 <= q <= 2_600_000_000,
{
    proof {
        crate::scalar::lemma_smul_abs(x as int, x as int, TRIG_ARG_M as int, TRIG_ARG_M as int);
        crate::scalar::lemma_smul_sq_nonneg(x as int);
    }
    ((x as i128 * x as i128) / (SCALE as i128)) as i64
}

/// `scos_poly` on the first quadrant, executed.
fn cos_poly(x: i64) -> (r: i64)
    requires
        0 <= x <= TRIG_ARG_M,
    ensures
        r as int == scos_poly(x as int),
        sabs(r as int) <= 3_000_000_000,
{
    let q = argsq(x);
    let t5: i64 = -275 + mulq(q, 2, Ghost(2));
    let t4: i64 = 24801 + mulq(q, t5, Ghost(281));
    let t3: i64 = -1388888 + mulq(q, t4, Ghost(25532));
    let t2: i64 = 41666666 + mulq(q, t3, Ghost(1455272));
    let t1: i64 = -500000000 + mulq(q, t2, Ghost(45450374));
    1000000000 + mulq(q, t1, Ghost(618170973))
}

/// `ssin_poly` on the first quadrant, executed.
fn sin_poly(x: i64) -> (r: i64)
    requires
        0 <= x <= TRIG_ARG_M,
    ensures
        r as int == ssin_poly(x as int),
        sabs(r as int) <= 3_000_000_000,
{
    let q = argsq(x);
    let t4: i64 = 2755 + mulq(q, -25, Ghost(25));
    let t3: i64 = -198412 + mulq(q, t4, Ghost(2820));
    let t2: i64 = 8333333 + mulq(q, t3, Ghost(205744));
    let t1: i64 = -166666666 + mulq(q, t2, Ghost(8868268));
    let inner: i64 = 1000000000 + mulq(q, t1, Ghost(189724163));
    proof {
        crate::scalar::lemma_smul_abs(x as int, inner as int, TRIG_ARG_M as int, 1_493_282_824);
    }
    ((x as i128 * inner as i128) / (SCALE as i128)) as i64
}

/// The angle's mantissa reduced into `[0, TWO_PI_M)`, as the Euclidean
/// remainder modulo two pi.
fn reduce(r: Scalar) -> (x: i64)
    ensures
        x as int == sreduce(r@),
        0 <= x < TWO_PI_M,
{
    let m0: i64 = r.mantissa() % TWO_PI_M;
    let x: i64 = if m0 < 0 {
        m0 + TWO_PI_M
    } else {
        m0
    };
    proof {
        let d = TWO_PI_M as int;
        vstd::arithmetic::div_mod::lemma_fundamental_div_mod(r@, d);
        if r@ < 0 {
            let e = (-r@) % d;
            vstd::arithmetic::div_mod::lemma_fundamental_div_mod(-r@, d);
            if e == 0 {
                vstd::arithmetic::div_mod::lemma_fundamental_div_mod_converse(
                    r@,
                    d,
                    -((-r@) / d),
                    0,
                );
            } else {
                vstd::arithmetic::div_mod::lemma_fundamental_div_mod_converse(
                    r@,
                    d,
                    -((-r@) / d) - 1,
                    d - e,
                );
            }
        }
    }
    x
}

/// Cosine and sine of an angle in radians, together.
pub(crate) fn cos_sin(r: Scalar) -> (cs: (Scalar, Scalar))
    ensures
        cs.0@ == scos(r@),
        cs.1@ == ssin(r@),
        sabs(cs.0@) <= 3_000_000_000,
        sabs(cs.1@) <= 3_000_000_000,
{
    let x = reduce(r);
    if x <= HALF_PI_M {
        (Scalar::new(cos_poly(x)), Scalar::new(sin_poly(x)))
    } else if x <= PI_M {
        let c = cos_poly(PI_M - x);
        let s = sin_poly(PI_M - x);
        (Scalar::new(-c), Scalar::new(s))
    } else if x <= PI_M + HALF_PI_M {
        let c = cos_poly(x - PI_M);
        let s = sin_poly(x - PI_M);
        (Scalar::new(-c), Scalar::new(-s))
    } else {
        let c = cos_poly(TWO_PI_M - x);
        let s = sin_poly(TWO_PI_M - x);
        (Scalar::new(c), Scalar::new(-s))
    }
}

} // verus!
