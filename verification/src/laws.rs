//! Algebraic laws of the kernel, proved once and for all.
//!
//! Each proof function states a property of the kernel's operations over
//! the same specification functions that the executable contracts use, so
//! what holds here holds of every call of those operations.

use crate::matrix::{
    mapply, mapply_ok, mmul, mmul_ok, mrowdot, rect, sidentity4, stranslation, strans,
};
use crate::scalar::{
    fits_i64, lemma_smul_comm, lemma_smul_scale, lemma_smul_zero, sabs, sdiv, smul, EPSILON_M,
    SCALE,
};
use crate::tuple::{
    tadd, tadd_ok, tcross, tcross_ok, tdot, tdot_ok, tmag, tmag_sq, tneg, tneg_ok, tquot,
    tquot_ok, tsub, tsub_ok, Point, Vector,
};
use vstd::prelude::*;

verus! {

/// Every entry of the grid fits an `i64` mantissa.
pub open spec fn grid_fits(g: Seq<Seq<int>>, rows: int, cols: int) -> bool {
    forall|r: int, c: int| 0 <= r < rows && 0 <= c < cols ==> fits_i64(#[trigger] g[r][c])
}

/// Transposing twice gives back the original grid: for every matrix `m`,
/// `m.transpose().transpose() == m`.
pub proof fn lemma_transpose_involutive(g: Seq<Seq<int>>, rows: int, cols: int)
    requires
        rect(g, rows, cols),
    ensures
        strans(strans(g, rows, cols), cols, rows) == g,
{
    assert(strans(strans(g, rows, cols), cols, rows) =~~= g);
}

/// Multiplying by the 4x4 identity changes nothing: for every matrix `m`
/// with four columns, `m * identity4() == m`, exactly — and the
/// multiplication is always in range.
pub proof fn lemma_mul_identity(g: Seq<Seq<int>>, rows: int)
    requires
        rect(g, rows, 4),
        grid_fits(g, rows, 4),
    ensures
        mmul_ok(g, sidentity4(), rows, 4, 4),
        mmul(g, sidentity4(), rows, 4, 4) == g,
{
    let id = sidentity4();
    assert forall|r: int, c: int, k: int|
        0 <= r < rows && 0 <= c < 4 && 0 <= k < 4 implies {
        &&& fits_i64(#[trigger] smul(g[r][k], id[k][c]))
        &&& fits_i64(mrowdot(g, id, r, c, k + 1))
    } by {
        lemma_rowdot_identity(g, r, c, 4);
        lemma_rowdot_identity(g, r, c, k + 1);
        if k == c {
            lemma_smul_scale(g[r][k]);
        } else {
            lemma_smul_zero(g[r][k]);
        }
    }
    assert forall|r: int, c: int|
        0 <= r < rows && 0 <= c < 4 implies #[trigger] mrowdot(g, id, r, c, 4) == g[r][c] by {
        lemma_rowdot_identity(g, r, c, 4);
    }
    assert(mmul(g, sidentity4(), rows, 4, 4) =~~= g);
}

/// A partial row-by-identity-column dot product is the row's entry `c`
/// once the sum has passed column `c`, and zero before.
proof fn lemma_rowdot_identity(g: Seq<Seq<int>>, r: int, c: int, k: int)
    requires
        0 <= c < 4,
        0 <= k <= 4,
    ensures
        mrowdot(g, sidentity4(), r, c, k) == if c < k {
            g[r][c]
        } else {
            0
        },
    decreases k,
{
    if k > 0 {
        lemma_rowdot_identity(g, r, c, k - 1);
        if k - 1 == c {
            lemma_smul_scale(g[r][c]);
        } else {
            lemma_smul_zero(g[r][k - 1]);
        }
    }
}

/// The dot product is commutative: `a.dot(b) == b.dot(a)`, and one side's
/// arithmetic is in range exactly when the other's is.
pub proof fn lemma_dot_commutative(a: Vector, b: Vector)
    ensures
        tdot(a.0, b.0) == tdot(b.0, a.0),
        tdot_ok(a.0, b.0) == tdot_ok(b.0, a.0),
{
    lemma_smul_comm(a.0.x@, b.0.x@);
    lemma_smul_comm(a.0.y@, b.0.y@);
    lemma_smul_comm(a.0.z@, b.0.z@);
    lemma_smul_comm(a.0.w@, b.0.w@);
}

/// The cross product is anticommutative: `a.cross(b) == -(b.cross(a))`,
/// component for component, whenever both products stay in range.
pub proof fn lemma_cross_anticommutative(a: Vector, b: Vector)
    requires
        tcross_ok(a.0, b.0),
        tcross_ok(b.0, a.0),
    ensures
        tneg_ok(tcross(b.0, a.0)),
        tcross(a.0, b.0) == tneg(tcross(b.0, a.0)),
{
    lemma_smul_comm(a.0.x@, b.0.y@);
    lemma_smul_comm(a.0.x@, b.0.z@);
    lemma_smul_comm(a.0.y@, b.0.x@);
    lemma_smul_comm(a.0.y@, b.0.z@);
    lemma_smul_comm(a.0.z@, b.0.x@);
    lemma_smul_comm(a.0.z@, b.0.y@);
}

/// Translation does not affect vectors: applying `translation(x, y, z)` to
/// any tuple with `w == 0` gives the tuple back exactly, and the
/// application is always in range.
pub proof fn lemma_translation_fixes_vectors(x: int, y: int, z: int, v: Vector)
    requires
        v.0.w@ == 0,
    ensures
        mapply_ok(stranslation(x, y, z), v.0),
        mapply(stranslation(x, y, z), v.0) == v.0,
{
    let t = v.0;
    lemma_smul_scale(t.x@);
    lemma_smul_scale(t.y@);
    lemma_smul_scale(t.z@);
    lemma_smul_scale(t.w@);
    lemma_smul_zero(t.x@);
    lemma_smul_zero(t.y@);
    lemma_smul_zero(t.z@);
    lemma_smul_zero(x);
    lemma_smul_zero(y);
    lemma_smul_zero(z);
    assert(mapply(stranslation(x, y, z), t) == t);
}

/// The square of one normalized component, scaled by the squared
/// magnitude, brackets the component's own scaled square.
proof fn lemma_quot_sq_bounds(vi: int, m: int)
    requires
        m > 0,
    ensures
        sabs(sdiv(vi, m)) * m <= sabs(vi) * (SCALE as int),
        (sdiv(vi, m) * sdiv(vi, m)) * (m * m) <= (vi * vi) * ((SCALE as int) * (SCALE as int)),
        (sdiv(vi, m) * sdiv(vi, m)) * (m * m) >= (vi * vi) * ((SCALE as int) * (SCALE as int)) - 2
            * (sabs(vi) * (SCALE as int)) * m,
{
    let s = SCALE as int;
    crate::scalar::lemma_tdiv_close(vi * s, m);
    let n = sdiv(vi, m);
    assert(sabs(vi * s) == sabs(vi) * s) by (nonlinear_arith)
        requires
            s > 0,
    ;
    let an = sabs(n);
    let av = sabs(vi) * s;
    assert(-m < vi * s - m * n < m);
    assert(an * m >= av - m) by (nonlinear_arith)
        requires
            -m < vi * s - m * n < m,
            av == vi * s || av == -(vi * s),
            av >= 0,
            an == n || an == -n,
            an >= 0,
            m > 0,
    ;
    assert((n * n) * (m * m) == (an * m) * (an * m) && (vi * vi) * (s * s) == av * av)
        by (nonlinear_arith)
        requires
            an == sabs(n),
            av == sabs(vi) * s,
            s > 0,
    ;
    assert((an * m) * (an * m) <= av * av && (an * m) * (an * m) >= av * av - 2 * av * m)
        by (nonlinear_arith)
        requires
            0 <= an * m,
            0 <= av,
            an * m <= av,
            an * m >= av - m,
            m > 0,
    ;
}

/// Normalizing yields a unit vector: for any vector of magnitude at least
/// one tenth, the magnitude of the normalized vector is roughly one.
/// (Below that the quantized squares lose too much: normalizing a vector of
/// magnitude a few times 1e-5 can miss one badly.)
pub proof fn lemma_normalize_unit_magnitude(v: Vector)
    requires
        tdot_ok(v.0, v.0),
        tmag(v.0) >= 100_000_000,
    ensures
        tquot_ok(v.0, tmag(v.0)),
        tdot_ok(tquot(v.0, tmag(v.0)), tquot(v.0, tmag(v.0))),
        sabs(tmag(tquot(v.0, tmag(v.0))) - (SCALE as int)) < EPSILON_M,
{
    let s = SCALE as int;
    let t = v.0;
    let x0 = t.x@;
    let x1 = t.y@;
    let x2 = t.z@;
    let x3 = t.w@;
    let q = tmag_sq(t);
    let sv = x0 * x0 + x1 * x1 + x2 * x2 + x3 * x3;

    crate::scalar::lemma_smul_sq_nonneg(x0);
    crate::scalar::lemma_smul_sq_nonneg(x1);
    crate::scalar::lemma_smul_sq_nonneg(x2);
    crate::scalar::lemma_smul_sq_nonneg(x3);
    lemma_sq_bracket(x0);
    lemma_sq_bracket(x1);
    lemma_sq_bracket(x2);
    lemma_sq_bracket(x3);
    assert(s * q <= sv < s * q + 4 * s) by (nonlinear_arith)
        requires
            s * smul(x0, x0) <= x0 * x0 < s * smul(x0, x0) + s,
            s * smul(x1, x1) <= x1 * x1 < s * smul(x1, x1) + s,
            s * smul(x2, x2) <= x2 * x2 < s * smul(x2, x2) + s,
            s * smul(x3, x3) <= x3 * x3 < s * smul(x3, x3) + s,
            q == smul(x0, x0) + smul(x1, x1) + smul(x2, x2) + smul(x3, x3),
            sv == x0 * x0 + x1 * x1 + x2 * x2 + x3 * x3,
    ;
    assert(q * s >= 0) by (nonlinear_arith)
        requires
            q >= 0,
            s > 0,
    ;
    crate::scalar::lemma_floor_sqrt(q * s);
    let m = tmag(t);
    assert(m * m <= q * s < (m + 1) * (m + 1));
    assert(q * s == s * q) by (nonlinear_arith);
    assert(m * m <= sv);
    assert(sv < (m + 1) * (m + 1) + 4 * s);
    assert((m + 1) * (m + 1) + 4 * s <= (m + 64000) * (m + 64000)) by (nonlinear_arith)
        requires
            m >= 0,
            s == 1_000_000_000,
    ;

    lemma_comp_bound(x0, sv, m);
    lemma_comp_bound(x1, sv, m);
    lemma_comp_bound(x2, sv, m);
    lemma_comp_bound(x3, sv, m);

    lemma_quot_bound(x0, m);
    lemma_quot_bound(x1, m);
    lemma_quot_bound(x2, m);
    lemma_quot_bound(x3, m);
    let n0 = sdiv(x0, m);
    let n1 = sdiv(x1, m);
    let n2 = sdiv(x2, m);
    let n3 = sdiv(x3, m);
    assert(tquot_ok(t, m));

    let nt = tquot(t, m);
    assert(nt.x@ == n0 && nt.y@ == n1 && nt.z@ == n2 && nt.w@ == n3);

    crate::scalar::lemma_smul_abs(n0, n0, 1_000_640_000, 1_000_640_000);
    crate::scalar::lemma_smul_abs(n1, n1, 1_000_640_000, 1_000_640_000);
    crate::scalar::lemma_smul_abs(n2, n2, 1_000_640_000, 1_000_640_000);
    crate::scalar::lemma_smul_abs(n3, n3, 1_000_640_000, 1_000_640_000);
    crate::scalar::lemma_smul_sq_nonneg(n0);
    crate::scalar::lemma_smul_sq_nonneg(n1);
    crate::scalar::lemma_smul_sq_nonneg(n2);
    crate::scalar::lemma_smul_sq_nonneg(n3);
    assert(tdot_ok(nt, nt));

    let qn = tmag_sq(nt);
    let sn = n0 * n0 + n1 * n1 + n2 * n2 + n3 * n3;
    lemma_sq_bracket(n0);
    lemma_sq_bracket(n1);
    lemma_sq_bracket(n2);
    lemma_sq_bracket(n3);
    assert(s * qn <= sn < s * qn + 4 * s) by (nonlinear_arith)
        requires
            s * smul(n0, n0) <= n0 * n0 < s * smul(n0, n0) + s,
            s * smul(n1, n1) <= n1 * n1 < s * smul(n1, n1) + s,
            s * smul(n2, n2) <= n2 * n2 < s * smul(n2, n2) + s,
            s * smul(n3, n3) <= n3 * n3 < s * smul(n3, n3) + s,
            qn == smul(n0, n0) + smul(n1, n1) + smul(n2, n2) + smul(n3, n3),
            sn == n0 * n0 + n1 * n1 + n2 * n2 + n3 * n3,
    ;

    lemma_quot_sq_bounds(x0, m);
    lemma_quot_sq_bounds(x1, m);
    lemma_quot_sq_bounds(x2, m);
    lemma_quot_sq_bounds(x3, m);
    assert(sn * (m * m) <= sv * (s * s)) by (nonlinear_arith)
        requires
            (n0 * n0) * (m * m) <= (x0 * x0) * (s * s),
            (n1 * n1) * (m * m) <= (x1 * x1) * (s * s),
            (n2 * n2) * (m * m) <= (x2 * x2) * (s * s),
            (n3 * n3) * (m * m) <= (x3 * x3) * (s * s),
            sn == n0 * n0 + n1 * n1 + n2 * n2 + n3 * n3,
            sv == x0 * x0 + x1 * x1 + x2 * x2 + x3 * x3,
    ;
    lemma_err_term(x0, m);
    lemma_err_term(x1, m);
    lemma_err_term(x2, m);
    lemma_err_term(x3, m);
    assert(sn * (m * m) == (n0 * n0) * (m * m) + (n1 * n1) * (m * m) + (n2 * n2) * (m * m) + (n3
        * n3) * (m * m)) by (nonlinear_arith)
        requires
            sn == n0 * n0 + n1 * n1 + n2 * n2 + n3 * n3,
    ;
    assert(sv * (s * s) == (x0 * x0) * (s * s) + (x1 * x1) * (s * s) + (x2 * x2) * (s * s) + (x3
        * x3) * (s * s)) by (nonlinear_arith)
        requires
            sv == x0 * x0 + x1 * x1 + x2 * x2 + x3 * x3,
    ;
    assert(2 * s * m * (4 * m + 256000) == 4 * (2 * s * m * (m + 64000))) by (nonlinear_arith);
    assert(sn * (m * m) >= sv * (s * s) - 2 * s * m * (4 * m + 256000));

    // Upper bound: qn * s < (s + 5000)^2.
    assert((qn * s) * (m * m) < (s + 5000) * (s + 5000) * (m * m)) by (nonlinear_arith)
        requires
            s * qn <= sn,
            sn * (m * m) <= sv * (s * s),
            sv < (m + 1) * (m + 1) + 4 * s,
            m >= 100_000_000,
            s == 1_000_000_000,
    ;
    assert(qn * s < (s + 5000) * (s + 5000)) by (nonlinear_arith)
        requires
            (qn * s) * (m * m) < (s + 5000) * (s + 5000) * (m * m),
            m > 0,
    ;

    // Lower bound: qn * s > (s - 5000)^2.
    assert((qn * s) * (m * m) > (s - 5000) * (s - 5000) * (m * m)) by (nonlinear_arith)
        requires
            sn < s * qn + 4 * s,
            sn * (m * m) >= sv * (s * s) - 2 * s * m * (4 * m + 256000),
            sv >= m * m,
            m >= 100_000_000,
            s == 1_000_000_000,
    ;
    assert(qn * s > (s - 5000) * (s - 5000)) by (nonlinear_arith)
        requires
            (qn * s) * (m * m) > (s - 5000) * (s - 5000) * (m * m),
            m > 0,
    ;

    assert(qn * s >= 0) by (nonlinear_arith)
        requires
            qn >= 0,
            s > 0,
    ;
    crate::scalar::lemma_floor_sqrt(qn * s);
    let r = tmag(nt);
    assert(r >= s - 5000) by (nonlinear_arith)
        requires
            qn * s < (r + 1) * (r + 1),
            qn * s > (s - 5000) * (s - 5000),
            r >= 0,
            s == 1_000_000_000,
    ;
    assert(r < s + 5000) by (nonlinear_arith)
        requires
            r * r <= qn * s,
            qn * s < (s + 5000) * (s + 5000),
            r >= 0,
            s == 1_000_000_000,
    ;
}

/// One scaled fixed-point square brackets the exact square within one
/// scale unit.
proof fn lemma_sq_bracket(x: int)
    ensures
        (SCALE as int) * smul(x, x) <= x * x < (SCALE as int) * smul(x, x) + SCALE,
{
    let s = SCALE as int;
    crate::scalar::lemma_tdiv_close(x * x, s);
    crate::scalar::lemma_smul_sq_nonneg(x);
    assert(x * x >= 0) by (nonlinear_arith);
    assert(s * smul(x, x) <= x * x && x * x - s * smul(x, x) < s) by (nonlinear_arith)
        requires
            sabs(smul(x, x)) * s <= sabs(x * x),
            sabs(x * x - s * smul(x, x)) < s,
            smul(x, x) >= 0,
            x * x >= 0,
            s > 0,
    ;
}

/// The per-component error term is bounded once the component is.
proof fn lemma_err_term(xi: int, m: int)
    requires
        sabs(xi) <= m + 64000,
        m > 0,
    ensures
        2 * (sabs(xi) * (SCALE as int)) * m <= 2 * (SCALE as int) * m * (m + 64000),
{
    let s = SCALE as int;
    assert(2 * (sabs(xi) * s) * m <= 2 * s * m * (m + 64000)) by (nonlinear_arith)
        requires
            0 <= sabs(xi) <= m + 64000,
            m > 0,
            s > 0,
    ;
}

/// A component's magnitude is bounded by the magnitude of the whole.
proof fn lemma_comp_bound(xi: int, sv: int, m: int)
    requires
        xi * xi <= sv,
        sv < (m + 64000) * (m + 64000),
        m >= 0,
    ensures
        sabs(xi) <= m + 64000,
{
    if sabs(xi) > m + 64000 {
        assert((m + 64000) * (m + 64000) < xi * xi) by (nonlinear_arith)
            requires
                sabs(xi) >= m + 64001,
                m >= 0,
        ;
    }
}

/// A normalized component stays within a whisker of one unit.
proof fn lemma_quot_bound(xi: int, m: int)
    requires
        sabs(xi) <= m + 64000,
        m >= 100_000_000,
    ensures
        sabs(sdiv(xi, m)) <= 1_000_640_000,
        fits_i64(sdiv(xi, m)),
{
    let s = SCALE as int;
    crate::scalar::lemma_tdiv_close(xi * s, m);
    assert(sabs(xi * s) == sabs(xi) * s) by (nonlinear_arith)
        requires
            s > 0,
    ;
    assert(sabs(sdiv(xi, m)) <= 1_000_640_000) by (nonlinear_arith)
        requires
            sabs(sdiv(xi, m)) * m <= sabs(xi) * s,
            sabs(xi) <= m + 64000,
            m >= 100_000_000,
            s == 1_000_000_000,
    ;
}

/// Round trip of point and vector: `(p + v) - v == p`, exactly, whenever
/// the sum stays in range.
pub proof fn lemma_add_sub_round_trip(p: Point, v: Vector)
    requires
        tadd_ok(p.0, v.0),
    ensures
        tsub_ok(tadd(p.0, v.0), v.0),
        tsub(tadd(p.0, v.0), v.0) == p.0,
{
}

} // verus!
