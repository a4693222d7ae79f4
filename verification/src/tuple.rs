//! Homogeneous 4-component tuple algebra.
//!
//! A `Tuple` is an (x, y, z, w) quadruple of fixed-point scalars. `Point`
//! (w = 1) and `Vector` (w = 0) wrap it as distinct nominal types exposing
//! only the operations valid for each: points translate, vectors carry
//! direction and support dot and cross products. Arithmetic is defined once
//! on `Tuple` and re-exposed through the typed wrappers.

use crate::roughly::RoughlyEqual;
use crate::scalar::{fits_i64, floor_sqrt, sabs, sdiv, smul, Scalar, EPSILON_M, SCALE};
use vstd::prelude::*;

verus! {

/// An (x, y, z, w) quadruple of scalars; `w` tells points from vectors.
#[derive(Clone, Copy, Debug)]
pub struct Tuple {
    pub x: Scalar,
    pub y: Scalar,
    pub z: Scalar,
    pub w: Scalar,
}

/// A location in space: a `Tuple` whose `w` is 1 when built by `point`.
#[derive(Clone, Copy, Debug)]
pub struct Point(pub Tuple);

/// A direction with length: a `Tuple` whose `w` is 0 when built by `vector`.
#[derive(Clone, Copy, Debug)]
pub struct Vector(pub Tuple);

/// The tuple with the given component mantissas.
pub open spec fn tup(x: int, y: int, z: int, w: int) -> Tuple {
    Tuple { x: Scalar { m: x as i64 }, y: Scalar { m: y as i64 }, z: Scalar { m: z as i64 }, w: Scalar { m: w as i64 } }
}

/// Component-wise sum of two tuples.
pub open spec fn tadd(a: Tuple, b: Tuple) -> Tuple {
    tup(a.x@ + b.x@, a.y@ + b.y@, a.z@ + b.z@, a.w@ + b.w@)
}

/// Whether every component of the sum fits an `i64` mantissa.
pub open spec fn tadd_ok(a: Tuple, b: Tuple) -> bool {
    &&& fits_i64(a.x@ + b.x@)
    &&& fits_i64(a.y@ + b.y@)
    &&& fits_i64(a.z@ + b.z@)
    &&& fits_i64(a.w@ + b.w@)
}

/// Component-wise difference of two tuples.
pub open spec fn tsub(a: Tuple, b: Tuple) -> Tuple {
    tup(a.x@ - b.x@, a.y@ - b.y@, a.z@ - b.z@, a.w@ - b.w@)
}

/// Whether every component of the difference fits an `i64` mantissa.
pub open spec fn tsub_ok(a: Tuple, b: Tuple) -> bool {
    &&& fits_i64(a.x@ - b.x@)
    &&& fits_i64(a.y@ - b.y@)
    &&& fits_i64(a.z@ - b.z@)
    &&& fits_i64(a.w@ - b.w@)
}

/// Component-wise negation.
pub open spec fn tneg(a: Tuple) -> Tuple {
    tup(-a.x@, -a.y@, -a.z@, -a.w@)
}

/// Whether every negated component fits (the mantissa is not `i64::MIN`).
pub open spec fn tneg_ok(a: Tuple) -> bool {
    &&& a.x@ != i64::MIN
    &&& a.y@ != i64::MIN
    &&& a.z@ != i64::MIN
    &&& a.w@ != i64::MIN
}

/// Every component multiplied by the scalar `k`.
pub open spec fn tscale(a: Tuple, k: int) -> Tuple {
    tup(smul(a.x@, k), smul(a.y@, k), smul(a.z@, k), smul(a.w@, k))
}

/// Whether every scaled component fits an `i64` mantissa.
pub open spec fn tscale_ok(a: Tuple, k: int) -> bool {
    &&& fits_i64(smul(a.x@, k))
    &&& fits_i64(smul(a.y@, k))
    &&& fits_i64(smul(a.z@, k))
    &&& fits_i64(smul(a.w@, k))
}

/// Every component divided by the scalar `k`.
pub open spec fn tquot(a: Tuple, k: int) -> Tuple {
    tup(sdiv(a.x@, k), sdiv(a.y@, k), sdiv(a.z@, k), sdiv(a.w@, k))
}

/// Whether the division is defined and every quotient fits.
pub open spec fn tquot_ok(a: Tuple, k: int) -> bool {
    &&& k != 0
    &&& fits_i64(sdiv(a.x@, k))
    &&& fits_i64(sdiv(a.y@, k))
    &&& fits_i64(sdiv(a.z@, k))
    &&& fits_i64(sdiv(a.w@, k))
}

/// Dot product over all four components, summed left to right.
pub open spec fn tdot(a: Tuple, b: Tuple) -> int {
    smul(a.x@, b.x@) + smul(a.y@, b.y@) + smul(a.z@, b.z@) + smul(a.w@, b.w@)
}

/// Whether each product and each partial sum of the dot product fits.
pub open spec fn tdot_ok(a: Tuple, b: Tuple) -> bool {
    &&& fits_i64(smul(a.x@, b.x@))
    &&& fits_i64(smul(a.y@, b.y@))
    &&& fits_i64(smul(a.z@, b.z@))
    &&& fits_i64(smul(a.w@, b.w@))
    &&& fits_i64(smul(a.x@, b.x@) + smul(a.y@, b.y@))
    &&& fits_i64(smul(a.x@, b.x@) + smul(a.y@, b.y@) + smul(a.z@, b.z@))
    &&& fits_i64(tdot(a, b))
}

/// The 3D cross product, as a tuple with `w` = 0.
pub open spec fn tcross(a: Tuple, b: Tuple) -> Tuple {
    tup(
        smul(a.y@, b.z@) - smul(a.z@, b.y@),
        smul(a.z@, b.x@) - smul(a.x@, b.z@),
        smul(a.x@, b.y@) - smul(a.y@, b.x@),
        0,
    )
}

/// Whether every product and difference of the cross product fits.
pub open spec fn tcross_ok(a: Tuple, b: Tuple) -> bool {
    &&& fits_i64(smul(a.y@, b.z@))
    &&& fits_i64(smul(a.z@, b.y@))
    &&& fits_i64(smul(a.z@, b.x@))
    &&& fits_i64(smul(a.x@, b.z@))
    &&& fits_i64(smul(a.x@, b.y@))
    &&& fits_i64(smul(a.y@, b.x@))
    &&& fits_i64(smul(a.y@, b.z@) - smul(a.z@, b.y@))
    &&& fits_i64(smul(a.z@, b.x@) - smul(a.x@, b.z@))
    &&& fits_i64(smul(a.x@, b.y@) - smul(a.y@, b.x@))
}

/// Squared magnitude: the dot product of a tuple with itself.
pub open spec fn tmag_sq(a: Tuple) -> int {
    tdot(a, a)
}

/// Mantissa of the magnitude: integer square root of the squared magnitude
/// brought back to scale.
pub open spec fn tmag(a: Tuple) -> int {
    floor_sqrt(tmag_sq(a) * (SCALE as int))
}

/// Two tuples are roughly equal component-wise.
pub open spec fn trough(a: Tuple, b: Tuple) -> bool {
    &&& sabs(a.x@ - b.x@) < EPSILON_M
    &&& sabs(a.y@ - b.y@) < EPSILON_M
    &&& sabs(a.z@ - b.z@) < EPSILON_M
    &&& sabs(a.w@ - b.w@) < EPSILON_M
}

impl Tuple {
    /// The tuple (x, y, z, w).
    pub fn new(x: Scalar, y: Scalar, z: Scalar, w: Scalar) -> (r: Tuple)
        ensures
            r == (Tuple { x, y, z, w }),
    {
        Tuple { x, y, z, w }
    }

    /// The x component.
    #[inline]
    pub fn x(&self) -> (r: Scalar)
        ensures
            r == self.x,
    {
        self.x
    }

    /// The y component.
    #[inline]
    pub fn y(&self) -> (r: Scalar)
        ensures
            r == self.y,
    {
        self.y
    }

    /// The z component.
    #[inline]
    pub fn z(&self) -> (r: Scalar)
        ensures
            r == self.z,
    {
        self.z
    }

    /// The w component.
    #[inline]
    pub fn w(&self) -> (r: Scalar)
        ensures
            r == self.w,
    {
        self.w
    }

    /// Whether the tuple has the homogeneous coordinate of a point.
    pub fn is_point(&self) -> (r: bool)
        ensures
            r == (self.w@ == SCALE),
    {
        self.w.mantissa() == SCALE
    }

    /// Whether the tuple has the homogeneous coordinate of a vector.
    pub fn is_vector(&self) -> (r: bool)
        ensures
            r == (self.w@ == 0),
    {
        self.w.mantissa() == 0
    }
}

impl core::ops::Add for Tuple {
    type Output = Tuple;

    /// Component-wise sum.
    fn add(self, other: Tuple) -> (r: Tuple) {
        Tuple::new(self.x + other.x, self.y + other.y, self.z + other.z, self.w + other.w)
    }
}

impl vstd::std_specs::ops::AddSpecImpl for Tuple {
    open spec fn obeys_add_spec() -> bool {
        true
    }

    open spec fn add_req(self, other: Tuple) -> bool {
        tadd_ok(self, other)
    }

    open spec fn add_spec(self, other: Tuple) -> Tuple {
        tadd(self, other)
    }
}

impl core::ops::Sub for Tuple {
    type Output = Tuple;

    /// Component-wise difference.
    fn sub(self, other: Tuple) -> (r: Tuple) {
        Tuple::new(self.x - other.x, self.y - other.y, self.z - other.z, self.w - other.w)
    }
}

impl vstd::std_specs::ops::SubSpecImpl for Tuple {
    open spec fn obeys_sub_spec() -> bool {
        true
    }

    open spec fn sub_req(self, other: Tuple) -> bool {
        tsub_ok(self, other)
    }

    open spec fn sub_spec(self, other: Tuple) -> Tuple {
        tsub(self, other)
    }
}

impl core::ops::Neg for Tuple {
    type Output = Tuple;

    /// Component-wise negation.
    fn neg(self) -> (r: Tuple) {
        Tuple::new(
            Scalar::zero() - self.x,
            Scalar::zero() - self.y,
            Scalar::zero() - self.z,
            Scalar::zero() - self.w,
        )
    }
}

impl vstd::std_specs::ops::NegSpecImpl for Tuple {
    open spec fn obeys_neg_spec() -> bool {
        true
    }

    open spec fn neg_req(self) -> bool {
        tneg_ok(self)
    }

    open spec fn neg_spec(self) -> Tuple {
        tneg(self)
    }
}

impl core::ops::Mul<Scalar> for Tuple {
    type Output = Tuple;

    /// Every component multiplied by `rhs`.
    fn mul(self, rhs: Scalar) -> (r: Tuple) {
        Tuple::new(self.x * rhs, self.y * rhs, self.z * rhs, self.w * rhs)
    }
}

impl vstd::std_specs::ops::MulSpecImpl<Scalar> for Tuple {
    open spec fn obeys_mul_spec() -> bool {
        true
    }

    open spec fn mul_req(self, rhs: Scalar) -> bool {
        tscale_ok(self, rhs@)
    }

    open spec fn mul_spec(self, rhs: Scalar) -> Tuple {
        tscale(self, rhs@)
    }
}

impl core::ops::Div<Scalar> for Tuple {
    type Output = Tuple;

    /// Every component divided by `rhs`.
    fn div(self, rhs: Scalar) -> (r: Tuple) {
        Tuple::new(self.x / rhs, self.y / rhs, self.z / rhs, self.w / rhs)
    }
}

impl vstd::std_specs::ops::DivSpecImpl<Scalar> for Tuple {
    open spec fn obeys_div_spec() -> bool {
        true
    }

    open spec fn div_req(self, rhs: Scalar) -> bool {
        tquot_ok(self, rhs@)
    }

    open spec fn div_spec(self, rhs: Scalar) -> Tuple {
        tquot(self, rhs@)
    }
}

impl PartialEq for Tuple {
    /// Component-wise rough equality, the kernel's structural equality.
    fn eq(&self, other: &Self) -> (r: bool) {
        self.x.roughly_equal(&other.x) && self.y.roughly_equal(&other.y)
            && self.z.roughly_equal(&other.z) && self.w.roughly_equal(&other.w)
    }
}

impl vstd::std_specs::cmp::PartialEqSpecImpl for Tuple {
    open spec fn obeys_eq_spec() -> bool {
        true
    }

    open spec fn eq_spec(&self, other: &Tuple) -> bool {
        trough(*self, *other)
    }
}

impl Point {
    /// The point (x, y, z), with `w` = 1.
    pub fn new(x: Scalar, y: Scalar, z: Scalar) -> (r: Point)
        ensures
            r.0 == (Tuple { x, y, z, w: Scalar { m: SCALE } }),
    {
        Point(Tuple::new(x, y, z, Scalar::one()))
    }

    /// The x coordinate.
    #[inline]
    pub fn x(&self) -> (r: Scalar)
        ensures
            r == self.0.x,
    {
        self.0.x
    }

    /// The y coordinate.
    #[inline]
    pub fn y(&self) -> (r: Scalar)
        ensures
            r == self.0.y,
    {
        self.0.y
    }

    /// The z coordinate.
    #[inline]
    pub fn z(&self) -> (r: Scalar)
        ensures
            r == self.0.z,
    {
        self.0.z
    }
}

impl Vector {
    /// The vector (x, y, z), with `w` = 0.
    pub fn new(x: Scalar, y: Scalar, z: Scalar) -> (r: Vector)
        ensures
            r.0 == (Tuple { x, y, z, w: Scalar { m: 0 } }),
    {
        Vector(Tuple::new(x, y, z, Scalar::zero()))
    }

    /// The x component.
    #[inline]
    pub fn x(&self) -> (r: Scalar)
        ensures
            r == self.0.x,
    {
        self.0.x
    }

    /// The y component.
    #[inline]
    pub fn y(&self) -> (r: Scalar)
        ensures
            r == self.0.y,
    {
        self.0.y
    }

    /// The z component.
    #[inline]
    pub fn z(&self) -> (r: Scalar)
        ensures
            r == self.0.z,
    {
        self.0.z
    }

    /// Euclidean length over all four components.
    #[inline]
    pub fn magnitude(&self) -> (r: Scalar)
        requires
            tdot_ok(self.0, self.0),
        ensures
            r@ == tmag(self.0),
            r@ >= 0,
    {
        proof {
            crate::scalar::lemma_smul_sq_nonneg(self.0.x@);
            crate::scalar::lemma_smul_sq_nonneg(self.0.y@);
            crate::scalar::lemma_smul_sq_nonneg(self.0.z@);
            crate::scalar::lemma_smul_sq_nonneg(self.0.w@);
        }
        let s: Scalar = self.0.x * self.0.x + self.0.y * self.0.y + self.0.z * self.0.z + self.0.w
            * self.0.w;
        s.sqrt()
    }

    /// The unit-length vector in the same direction: every component divided
    /// by the magnitude. Normalizing a zero-magnitude vector is excluded by
    /// precondition.
    #[inline]
    pub fn normalize(&self) -> (r: Vector)
        requires
            tdot_ok(self.0, self.0),
            tmag(self.0) > 0,
            tquot_ok(self.0, tmag(self.0)),
        ensures
            r.0 == tquot(self.0, tmag(self.0)),
    {
        let m = self.magnitude();
        Vector(self.0 / m)
    }

    /// Dot product over all four components.
    #[inline]
    pub fn dot(&self, other: &Self) -> (r: Scalar)
        requires
            tdot_ok(self.0, other.0),
        ensures
            r@ == tdot(self.0, other.0),
    {
        self.0.x * other.0.x + self.0.y * other.0.y + self.0.z * other.0.z + self.0.w * other.0.w
    }

    /// The standard 3D cross product.
    #[inline]
    pub fn cross(&self, other: &Self) -> (r: Vector)
        requires
            tcross_ok(self.0, other.0),
        ensures
            r.0 == tcross(self.0, other.0),
    {
        Vector::new(
            self.0.y * other.0.z - self.0.z * other.0.y,
            self.0.z * other.0.x - self.0.x * other.0.z,
            self.0.x * other.0.y - self.0.y * other.0.x,
        )
    }
}

impl core::ops::Add<Vector> for Point {
    type Output = Point;

    /// A point moved along a vector is a point.
    fn add(self, other: Vector) -> (r: Point) {
        Point(self.0 + other.0)
    }
}

impl vstd::std_specs::ops::AddSpecImpl<Vector> for Point {
    open spec fn obeys_add_spec() -> bool {
        true
    }

    open spec fn add_req(self, other: Vector) -> bool {
        tadd_ok(self.0, other.0)
    }

    open spec fn add_spec(self, other: Vector) -> Point {
        Point(tadd(self.0, other.0))
    }
}

impl core::ops::Add for Vector {
    type Output = Vector;

    /// Vector sum.
    fn add(self, other: Vector) -> (r: Vector) {
        Vector(self.0 + other.0)
    }
}

impl vstd::std_specs::ops::AddSpecImpl for Vector {
    open spec fn obeys_add_spec() -> bool {
        true
    }

    open spec fn add_req(self, other: Vector) -> bool {
        tadd_ok(self.0, other.0)
    }

    open spec fn add_spec(self, other: Vector) -> Vector {
        Vector(tadd(self.0, other.0))
    }
}

impl core::ops::Sub<Point> for Point {
    type Output = Vector;

    /// The difference of two points is the vector between them.
    fn sub(self, other: Point) -> (r: Vector) {
        Vector(self.0 - other.0)
    }
}

impl vstd::std_specs::ops::SubSpecImpl<Point> for Point {
    open spec fn obeys_sub_spec() -> bool {
        true
    }

    open spec fn sub_req(self, other: Point) -> bool {
        tsub_ok(self.0, other.0)
    }

    open spec fn sub_spec(self, other: Point) -> Vector {
        Vector(tsub(self.0, other.0))
    }
}

impl core::ops::Sub<Vector> for Point {
    type Output = Point;

    /// A point moved back along a vector is a point.
    fn sub(self, other: Vector) -> (r: Point) {
        Point(self.0 - other.0)
    }
}

impl vstd::std_specs::ops::SubSpecImpl<Vector> for Point {
    open spec fn obeys_sub_spec() -> bool {
        true
    }

    open spec fn sub_req(self, other: Vector) -> bool {
        tsub_ok(self.0, other.0)
    }

    open spec fn sub_spec(self, other: Vector) -> Point {
        Point(tsub(self.0, other.0))
    }
}

impl core::ops::Sub for Vector {
    type Output = Vector;

    /// Vector difference.
    fn sub(self, other: Vector) -> (r: Vector) {
        Vector(self.0 - other.0)
    }
}

impl vstd::std_specs::ops::SubSpecImpl for Vector {
    open spec fn obeys_sub_spec() -> bool {
        true
    }

    open spec fn sub_req(self, other: Vector) -> bool {
        tsub_ok(self.0, other.0)
    }

    open spec fn sub_spec(self, other: Vector) -> Vector {
        Vector(tsub(self.0, other.0))
    }
}

impl core::ops::Mul<Scalar> for Vector {
    type Output = Vector;

    /// A vector scaled by a scalar.
    fn mul(self, rhs: Scalar) -> (r: Vector) {
        Vector(self.0 * rhs)
    }
}

impl vstd::std_specs::ops::MulSpecImpl<Scalar> for Vector {
    open spec fn obeys_mul_spec() -> bool {
        true
    }

    open spec fn mul_req(self, rhs: Scalar) -> bool {
        tscale_ok(self.0, rhs@)
    }

    open spec fn mul_spec(self, rhs: Scalar) -> Vector {
        Vector(tscale(self.0, rhs@))
    }
}

impl PartialEq for Point {
    /// Points compare through the underlying tuples, roughly.
    fn eq(&self, other: &Self) -> (r: bool) {
        self.0 == other.0
    }
}

impl vstd::std_specs::cmp::PartialEqSpecImpl for Point {
    open spec fn obeys_eq_spec() -> bool {
        true
    }

    open spec fn eq_spec(&self, other: &Point) -> bool {
        trough(self.0, other.0)
    }
}

impl PartialEq for Vector {
    /// Vectors compare through the underlying tuples, roughly.
    fn eq(&self, other: &Self) -> (r: bool) {
        self.0 == other.0
    }
}

impl vstd::std_specs::cmp::PartialEqSpecImpl for Vector {
    open spec fn obeys_eq_spec() -> bool {
        true
    }

    open spec fn eq_spec(&self, other: &Vector) -> bool {
        trough(self.0, other.0)
    }
}

impl From<Tuple> for Point {
    /// Wraps a tuple as a point without touching its components.
    fn from(t: Tuple) -> (r: Point) {
        Point(t)
    }
}

impl vstd::std_specs::convert::FromSpecImpl<Tuple> for Point {
    open spec fn obeys_from_spec() -> bool {
        true
    }

    open spec fn from_spec(t: Tuple) -> Point {
        Point(t)
    }
}

impl From<Tuple> for Vector {
    /// Wraps a tuple as a vector without touching its components.
    fn from(t: Tuple) -> (r: Vector) {
        Vector(t)
    }
}

impl vstd::std_specs::convert::FromSpecImpl<Tuple> for Vector {
    open spec fn obeys_from_spec() -> bool {
        true
    }

    open spec fn from_spec(t: Tuple) -> Vector {
        Vector(t)
    }
}

impl Point {
    /// The point rotated about the x axis by `r` radians.
    pub fn rotate_x(self, r: Scalar) -> (p: Point)
        requires
            crate::matrix::mapply_ok(crate::matrix::srotation_x(r@), self.0),
        ensures
            p.0 == crate::matrix::mapply(crate::matrix::srotation_x(r@), self.0),
    {
        crate::matrix::Matrix::rotation_x(r) * self
    }

    /// The point rotated about the y axis by `r` radians.
    pub fn rotate_y(self, r: Scalar) -> (p: Point)
        requires
            crate::matrix::mapply_ok(crate::matrix::srotation_y(r@), self.0),
        ensures
            p.0 == crate::matrix::mapply(crate::matrix::srotation_y(r@), self.0),
    {
        crate::matrix::Matrix::rotation_y(r) * self
    }

    /// The point rotated about the z axis by `r` radians.
    pub fn rotate_z(self, r: Scalar) -> (p: Point)
        requires
            crate::matrix::mapply_ok(crate::matrix::srotation_z(r@), self.0),
        ensures
            p.0 == crate::matrix::mapply(crate::matrix::srotation_z(r@), self.0),
    {
        crate::matrix::Matrix::rotation_z(r) * self
    }

    /// The point moved by (x, y, z).
    pub fn translate(self, x: Scalar, y: Scalar, z: Scalar) -> (p: Point)
        requires
            crate::matrix::mapply_ok(crate::matrix::stranslation(x@, y@, z@), self.0),
        ensures
            p.0 == crate::matrix::mapply(crate::matrix::stranslation(x@, y@, z@), self.0),
    {
        crate::matrix::Matrix::translation(x, y, z) * self
    }

    /// The point scaled by (x, y, z).
    pub fn scale(self, x: Scalar, y: Scalar, z: Scalar) -> (p: Point)
        requires
            crate::matrix::mapply_ok(crate::matrix::sscaling(x@, y@, z@), self.0),
        ensures
            p.0 == crate::matrix::mapply(crate::matrix::sscaling(x@, y@, z@), self.0),
    {
        crate::matrix::Matrix::scaling(x, y, z) * self
    }

    /// The point sheared by the six coefficients.
    pub fn shear(
        self,
        xy: Scalar,
        xz: Scalar,
        yx: Scalar,
        yz: Scalar,
        zx: Scalar,
        zy: Scalar,
    ) -> (p: Point)
        requires
            crate::matrix::mapply_ok(
                crate::matrix::sshearing(xy@, xz@, yx@, yz@, zx@, zy@),
                self.0,
            ),
        ensures
            p.0 == crate::matrix::mapply(
                crate::matrix::sshearing(xy@, xz@, yx@, yz@, zx@, zy@),
                self.0,
            ),
    {
        crate::matrix::Matrix::shearing(xy, xz, yx, yz, zx, zy) * self
    }
}

impl Vector {
    /// The vector rotated about the x axis by `r` radians.
    pub fn rotate_x(self, r: Scalar) -> (v: Vector)
        requires
            crate::matrix::mapply_ok(crate::matrix::srotation_x(r@), self.0),
        ensures
            v.0 == crate::matrix::mapply(crate::matrix::srotation_x(r@), self.0),
    {
        crate::matrix::Matrix::rotation_x(r) * self
    }

    /// The vector rotated about the y axis by `r` radians.
    pub fn rotate_y(self, r: Scalar) -> (v: Vector)
        requires
            crate::matrix::mapply_ok(crate::matrix::srotation_y(r@), self.0),
        ensures
            v.0 == crate::matrix::mapply(crate::matrix::srotation_y(r@), self.0),
    {
        crate::matrix::Matrix::rotation_y(r) * self
    }

    /// The vector rotated about the z axis by `r` radians.
    pub fn rotate_z(self, r: Scalar) -> (v: Vector)
        requires
            crate::matrix::mapply_ok(crate::matrix::srotation_z(r@), self.0),
        ensures
            v.0 == crate::matrix::mapply(crate::matrix::srotation_z(r@), self.0),
    {
        crate::matrix::Matrix::rotation_z(r) * self
    }

    /// The vector handed to a translation matrix; translation leaves
    /// vectors unchanged.
    pub fn translate(self, x: Scalar, y: Scalar, z: Scalar) -> (v: Vector)
        requires
            crate::matrix::mapply_ok(crate::matrix::stranslation(x@, y@, z@), self.0),
        ensures
            v.0 == crate::matrix::mapply(crate::matrix::stranslation(x@, y@, z@), self.0),
    {
        crate::matrix::Matrix::translation(x, y, z) * self
    }

    /// The vector scaled by (x, y, z).
    pub fn scale(self, x: Scalar, y: Scalar, z: Scalar) -> (v: Vector)
        requires
            crate::matrix::mapply_ok(crate::matrix::sscaling(x@, y@, z@), self.0),
        ensures
            v.0 == crate::matrix::mapply(crate::matrix::sscaling(x@, y@, z@), self.0),
    {
        crate::matrix::Matrix::scaling(x, y, z) * self
    }

    /// The vector sheared by the six coefficients.
    pub fn shear(
        self,
        xy: Scalar,
        xz: Scalar,
        yx: Scalar,
        yz: Scalar,
        zx: Scalar,
        zy: Scalar,
    ) -> (v: Vector)
        requires
            crate::matrix::mapply_ok(
                crate::matrix::sshearing(xy@, xz@, yx@, yz@, zx@, zy@),
                self.0,
            ),
        ensures
            v.0 == crate::matrix::mapply(
                crate::matrix::sshearing(xy@, xz@, yx@, yz@, zx@, zy@),
                self.0,
            ),
    {
        crate::matrix::Matrix::shearing(xy, xz, yx, yz, zx, zy) * self
    }
}

/// The point (x, y, z).
pub fn point(x: Scalar, y: Scalar, z: Scalar) -> (r: Point)
    ensures
        r.0 == (Tuple { x, y, z, w: Scalar { m: SCALE } }),
{
    Point::new(x, y, z)
}

/// The vector (x, y, z).
pub fn vector(x: Scalar, y: Scalar, z: Scalar) -> (r: Vector)
    ensures
        r.0 == (Tuple { x, y, z, w: Scalar { m: 0 } }),
{
    Vector::new(x, y, z)
}

} // verus!
