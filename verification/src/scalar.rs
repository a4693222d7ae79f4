//! Fixed-point scalars.
//!
//! A `Scalar` denotes the real number `m / SCALE`, where `m` is an `i64`
//! mantissa and `SCALE` is one billion, giving nine decimal digits below the
//! unit. Addition and subtraction are exact; multiplication and division
//! truncate toward zero, and the contracts say precisely which mantissa each
//! operation yields.

use vstd::prelude::*;

verus! {

/// Number of mantissa units in one unit of value.
pub const SCALE: i64 = 1_000_000_000;

/// Mantissa of the comparison tolerance: 1e-5 of a unit.
pub const EPSILON_M: i64 = 10_000;

/// Whether a mathematical integer fits in an `i64` mantissa.
pub open spec fn fits_i64(x: int) -> bool {
    i64::MIN <= x <= i64::MAX
}

/// Integer division truncating toward zero, the rounding used by all
/// fixed-point operations here.
pub open spec fn tdiv(a: int, b: int) -> int {
    if a >= 0 {
        a / b
    } else {
        -((-a) / b)
    }
}

/// Mantissa of the product of two scalars given by mantissa.
pub open spec fn smul(a: int, b: int) -> int {
    tdiv(a * b, SCALE as int)
}

/// Mantissa of the quotient of two scalars given by mantissa.
pub open spec fn sdiv(a: int, b: int) -> int {
    tdiv(a * (SCALE as int), b)
}

/// Absolute value of a mathematical integer.
pub open spec fn sabs(a: int) -> int {
    if a >= 0 {
        a
    } else {
        -a
    }
}

/// Integer square root of `n`, as a specification: the greatest `r >= 0`
/// with `r * r <= n` (and `0` when `n < 0`, a case no caller uses).
pub open spec fn floor_sqrt(n: int) -> int
    decreases n,
{
    if n <= 0 {
        0
    } else {
        let r = floor_sqrt(n - 1);
        if (r + 1) * (r + 1) <= n {
            r + 1
        } else {
            r
        }
    }
}

/// `floor_sqrt(n)` is characterized by `r * r <= n < (r + 1) * (r + 1)`.
pub proof fn lemma_floor_sqrt(n: int)
    requires
        n >= 0,
    ensures
        floor_sqrt(n) >= 0,
        floor_sqrt(n) * floor_sqrt(n) <= n,
        n < (floor_sqrt(n) + 1) * (floor_sqrt(n) + 1),
    decreases n,
{
    if n == 0 {
    } else {
        lemma_floor_sqrt(n - 1);
        let r = floor_sqrt(n - 1);
        if (r + 1) * (r + 1) <= n {
            assert(n == (r + 1) * (r + 1));
            assert((r + 1) * (r + 1) < (r + 2) * (r + 2)) by (nonlinear_arith)
                requires
                    r >= 0,
            ;
        } else {
        }
    }
}

/// Any `r` in the characteristic range of `floor_sqrt(n)` is `floor_sqrt(n)`.
pub proof fn lemma_floor_sqrt_unique(n: int, r: int)
    requires
        n >= 0,
        r >= 0,
        r * r <= n,
        n < (r + 1) * (r + 1),
    ensures
        r == floor_sqrt(n),
{
    lemma_floor_sqrt(n);
    let f = floor_sqrt(n);
    if r < f {
        assert((r + 1) * (r + 1) <= f * f) by (nonlinear_arith)
            requires
                0 <= r < f,
        ;
    }
    if f < r {
        assert((f + 1) * (f + 1) <= r * r) by (nonlinear_arith)
            requires
                0 <= f < r,
        ;
    }
}

/// A fixed-point scalar: the real number `m / SCALE`.
///
/// `==` on `Scalar` is exact mantissa equality; the tolerance-based
/// comparison lives in the `RoughlyEqual` trait.
#[derive(Clone, Copy, Debug, PartialEq, Eq, Structural)]
pub struct Scalar {
    pub m: i64,
}

impl View for Scalar {
    type V = int;

    open spec fn view(&self) -> int {
        self.m as int
    }
}

impl Scalar {
    /// The scalar with the given mantissa, denoting `m / SCALE`.
    pub fn new(m: i64) -> (r: Scalar)
        ensures
            r@ == m,
    {
        Scalar { m }
    }

    /// The scalar's raw mantissa.
    pub fn mantissa(&self) -> (r: i64)
        ensures
            r == self@,
    {
        self.m
    }

    /// The scalar zero.
    pub fn zero() -> (r: Scalar)
        ensures
            r@ == 0,
    {
        Scalar { m: 0 }
    }

    /// The scalar one, that is `SCALE` mantissa units.
    pub fn one() -> (r: Scalar)
        ensures
            r@ == SCALE,
    {
        Scalar { m: SCALE }
    }

    /// Whole-number scalar: `i` units.
    pub fn from_int(i: i64) -> (r: Scalar)
        requires
            fits_i64(i * (SCALE as int)),
        ensures
            r@ == i * (SCALE as int),
    {
        Scalar { m: ((i as i128) * (SCALE as i128)) as i64 }
    }

    /// Square root, rounded down to the nearest mantissa unit: the mantissa
    /// of the result is the integer square root of `self@ * SCALE`.
    pub fn sqrt(&self) -> (r: Scalar)
        requires
            self@ >= 0,
        ensures
            r@ == floor_sqrt(self@ * (SCALE as int)),
            r@ >= 0,
    {
        let n: u128 = (self.m as u128) * (SCALE as u128);
        let root: u128 = isqrt_u128(n);
        proof {
            lemma_isqrt_fits(self@ * (SCALE as int), root as int);
            lemma_floor_sqrt_unique(self@ * (SCALE as int), root as int);
        }
        Scalar { m: root as i64 }
    }
}

impl core::ops::Add for Scalar {
    type Output = Scalar;

    /// Exact addition of mantissas.
    fn add(self, rhs: Scalar) -> (r: Scalar) {
        Scalar { m: (self.m as i128 + rhs.m as i128) as i64 }
    }
}

impl vstd::std_specs::ops::AddSpecImpl for Scalar {
    open spec fn obeys_add_spec() -> bool {
        true
    }

    open spec fn add_req(self, rhs: Scalar) -> bool {
        fits_i64(self@ + rhs@)
    }

    open spec fn add_spec(self, rhs: Scalar) -> Scalar {
        Scalar { m: (self@ + rhs@) as i64 }
    }
}

impl core::ops::Sub for Scalar {
    type Output = Scalar;

    /// Exact subtraction of mantissas.
    fn sub(self, rhs: Scalar) -> (r: Scalar) {
        Scalar { m: (self.m as i128 - rhs.m as i128) as i64 }
    }
}

impl vstd::std_specs::ops::SubSpecImpl for Scalar {
    open spec fn obeys_sub_spec() -> bool {
        true
    }

    open spec fn sub_req(self, rhs: Scalar) -> bool {
        fits_i64(self@ - rhs@)
    }

    open spec fn sub_spec(self, rhs: Scalar) -> Scalar {
        Scalar { m: (self@ - rhs@) as i64 }
    }
}

impl core::ops::Neg for Scalar {
    type Output = Scalar;

    /// Exact negation of the mantissa.
    fn neg(self) -> (r: Scalar) {
        Scalar { m: -self.m }
    }
}

impl vstd::std_specs::ops::NegSpecImpl for Scalar {
    open spec fn obeys_neg_spec() -> bool {
        true
    }

    open spec fn neg_req(self) -> bool {
        self@ != i64::MIN
    }

    open spec fn neg_spec(self) -> Scalar {
        Scalar { m: (-self@) as i64 }
    }
}

impl core::ops::Mul for Scalar {
    type Output = Scalar;

    /// Fixed-point product: `(a * b) / SCALE`, truncated toward zero.
    fn mul(self, rhs: Scalar) -> (r: Scalar) {
        let p: i128 = self.m as i128 * rhs.m as i128;
        Scalar { m: (p / (SCALE as i128)) as i64 }
    }
}

impl vstd::std_specs::ops::MulSpecImpl for Scalar {
    open spec fn obeys_mul_spec() -> bool {
        true
    }

    open spec fn mul_req(self, rhs: Scalar) -> bool {
        fits_i64(smul(self@, rhs@))
    }

    open spec fn mul_spec(self, rhs: Scalar) -> Scalar {
        Scalar { m: smul(self@, rhs@) as i64 }
    }
}

impl core::ops::Div for Scalar {
    type Output = Scalar;

    /// Fixed-point quotient: `(a * SCALE) / b`, truncated toward zero.
    fn div(self, rhs: Scalar) -> (r: Scalar) {
        let p: i128 = self.m as i128 * (SCALE as i128);
        Scalar { m: (p / (rhs.m as i128)) as i64 }
    }
}

impl vstd::std_specs::ops::DivSpecImpl for Scalar {
    open spec fn obeys_div_spec() -> bool {
        true
    }

    open spec fn div_req(self, rhs: Scalar) -> bool {
        rhs@ != 0 && fits_i64(sdiv(self@, rhs@))
    }

    open spec fn div_spec(self, rhs: Scalar) -> Scalar {
        Scalar { m: sdiv(self@, rhs@) as i64 }
    }
}

/// Multiplying by the scalar one (mantissa `SCALE`) is exact, on either
/// side.
pub proof fn lemma_smul_scale(a: int)
    ensures
        smul(SCALE as int, a) == a,
        smul(a, SCALE as int) == a,
{
    if a >= 0 {
        vstd::arithmetic::div_mod::lemma_div_multiples_vanish(a, SCALE as int);
        assert((SCALE as int) * a == a * (SCALE as int)) by (nonlinear_arith);
    } else {
        vstd::arithmetic::div_mod::lemma_div_multiples_vanish(-a, SCALE as int);
        assert((SCALE as int) * a == -((SCALE as int) * (-a))) by (nonlinear_arith);
        assert(a * (SCALE as int) == -((SCALE as int) * (-a))) by (nonlinear_arith);
    }
}

/// Multiplying by the scalar zero gives zero, on either side.
pub proof fn lemma_smul_zero(a: int)
    ensures
        smul(0, a) == 0,
        smul(a, 0) == 0,
{
    assert(0 * a == 0) by (nonlinear_arith);
    assert(a * 0 == 0) by (nonlinear_arith);
    assert(tdiv(0, SCALE as int) == 0) by {
        vstd::arithmetic::div_mod::lemma_div_of0(SCALE as int);
    }
}

/// Fixed-point multiplication is commutative.
pub proof fn lemma_smul_comm(a: int, b: int)
    ensures
        smul(a, b) == smul(b, a),
{
    assert(a * b == b * a) by (nonlinear_arith);
}

/// Truncating division by a positive divisor is monotone in the numerator.
pub proof fn lemma_tdiv_mono(n1: int, n2: int, d: int)
    requires
        n1 <= n2,
        d > 0,
    ensures
        tdiv(n1, d) <= tdiv(n2, d),
{
    if n1 >= 0 {
        vstd::arithmetic::div_mod::lemma_div_is_ordered(n1, n2, d);
    } else if n2 >= 0 {
        vstd::arithmetic::div_mod::lemma_div_pos_is_pos(-n1, d);
        vstd::arithmetic::div_mod::lemma_div_pos_is_pos(n2, d);
    } else {
        vstd::arithmetic::div_mod::lemma_div_is_ordered(-n2, -n1, d);
    }
}

/// The magnitude of a fixed-point product is bounded by the scaled product
/// of the factors' bounds.
pub proof fn lemma_smul_abs(a: int, b: int, ba: int, bb: int)
    requires
        sabs(a) <= ba,
        sabs(b) <= bb,
    ensures
        -(ba * bb) <= a * b <= ba * bb,
        sabs(smul(a, b)) <= tdiv(ba * bb, SCALE as int),
        tdiv(ba * bb, SCALE as int) == (ba * bb) / (SCALE as int),
{
    assert(-(ba * bb) <= a * b <= ba * bb) by (nonlinear_arith)
        requires
            sabs(a) <= ba,
            sabs(b) <= bb,
    ;
    let p = a * b;
    let s = SCALE as int;
    vstd::arithmetic::div_mod::lemma_div_pos_is_pos(ba * bb, s);
    if p >= 0 {
        vstd::arithmetic::div_mod::lemma_div_pos_is_pos(p, s);
        vstd::arithmetic::div_mod::lemma_div_is_ordered(p, ba * bb, s);
    } else {
        vstd::arithmetic::div_mod::lemma_div_pos_is_pos(-p, s);
        vstd::arithmetic::div_mod::lemma_div_is_ordered(-p, ba * bb, s);
    }
}

/// Multiplying by a whole-number scalar (mantissa `k * SCALE`) is exact.
pub proof fn lemma_smul_whole(k: int, x: int)
    ensures
        smul(k * (SCALE as int), x) == k * x,
{
    let s = SCALE as int;
    assert((k * s) * x == s * (k * x)) by (nonlinear_arith);
    if k * x >= 0 {
        assert(s * (k * x) >= 0) by (nonlinear_arith)
            requires
                k * x >= 0,
                s > 0,
        ;
        vstd::arithmetic::div_mod::lemma_div_multiples_vanish(k * x, s);
    } else {
        assert(s * (k * x) < 0) by (nonlinear_arith)
            requires
                k * x < 0,
                s > 0,
        ;
        assert(-(s * (k * x)) == s * (-(k * x))) by (nonlinear_arith);
        vstd::arithmetic::div_mod::lemma_div_multiples_vanish(-(k * x), s);
    }
}

/// Truncating division brackets the exact quotient: the quotient scaled
/// back by the divisor stays within one divisor of the numerator, and its
/// magnitude never exceeds the numerator's.
pub proof fn lemma_tdiv_close(a: int, b: int)
    requires
        b > 0,
    ensures
        sabs(tdiv(a, b)) * b <= sabs(a),
        sabs(a - b * tdiv(a, b)) < b,
{
    if a >= 0 {
        vstd::arithmetic::div_mod::lemma_fundamental_div_mod(a, b);
        vstd::arithmetic::div_mod::lemma_mod_bound(a, b);
        vstd::arithmetic::div_mod::lemma_div_pos_is_pos(a, b);
        assert((a / b) * b <= a) by (nonlinear_arith)
            requires
                a == b * (a / b) + a % b,
                a % b >= 0,
        ;
    } else {
        vstd::arithmetic::div_mod::lemma_fundamental_div_mod(-a, b);
        vstd::arithmetic::div_mod::lemma_mod_bound(-a, b);
        vstd::arithmetic::div_mod::lemma_div_pos_is_pos(-a, b);
        assert(((-a) / b) * b <= -a) by (nonlinear_arith)
            requires
                -a == b * ((-a) / b) + (-a) % b,
                (-a) % b >= 0,
        ;
        assert(b * (-((-a) / b)) == -(b * ((-a) / b))) by (nonlinear_arith);
    }
}

/// The fixed-point square of any mantissa is nonnegative.
pub proof fn lemma_smul_sq_nonneg(a: int)
    ensures
        smul(a, a) >= 0,
{
    assert(a * a >= 0) by (nonlinear_arith);
    vstd::arithmetic::div_mod::lemma_div_pos_is_pos(a * a, SCALE as int);
}

/// One past the largest `r` that an integer square root of a `u128` can be.
const SQRT_HI: u128 = 18_446_744_073_709_551_616;

/// Integer square root: the greatest `r` with `r * r <= n`.
fn isqrt_u128(n: u128) -> (r: u128)
    ensures
        r * r <= n,
        n < (r + 1) * (r + 1),
{
    let mut lo: u128 = 0;
    let mut hi: u128 = SQRT_HI;
    proof {
        assert((SQRT_HI as int) * (SQRT_HI as int) > u128::MAX as int) by (nonlinear_arith);
    }
    while hi - lo > 1
        invariant
            lo < hi,
            lo * lo <= n,
            n < hi * hi,
            hi <= SQRT_HI,
        decreases hi - lo,
    {
        let mid: u128 = lo + (hi - lo) / 2;
        proof {
            assert(lo < mid < hi);
            vstd::arithmetic::mul::lemma_mul_strict_upper_bound(
                mid as int,
                SQRT_HI as int,
                mid as int,
                SQRT_HI as int,
            );
            assert(((SQRT_HI as int) - 1) * ((SQRT_HI as int) - 1) <= u128::MAX as int)
                by (nonlinear_arith);
        }
        if mid * mid <= n {
            lo = mid;
        } else {
            hi = mid;
        }
    }
    lo
}

/// `isqrt` of a doubled-precision mantissa fits back into an `i64`.
proof fn lemma_isqrt_fits(n: int, r: int)
    requires
        0 <= n <= (i64::MAX as int) * (SCALE as int),
        r >= 0,
        r * r <= n,
        n < (r + 1) * (r + 1),
    ensures
        r <= i64::MAX,
{
    if r > i64::MAX {
        assert((i64::MAX as int) * (SCALE as int) < r * r) by {
            assert((3_100_000_000_000_000int) * (3_100_000_000_000_000int) > (i64::MAX as int)
                * (SCALE as int)) by (nonlinear_arith);
            vstd::arithmetic::mul::lemma_mul_inequality(
                3_100_000_000_000_000int,
                r,
                3_100_000_000_000_000int,
            );
            vstd::arithmetic::mul::lemma_mul_inequality(3_100_000_000_000_000int, r, r);
        }
    }
}

} // verus!
