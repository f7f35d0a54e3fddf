//! Algebraic laws of the vector operations, stated over the fixed-point
//! model: normalization gives a vector of length one up to a few units of
//! the last place, the exact cross product is orthogonal to both operands,
//! and exact mirror reflection preserves length and negates the component
//! along the normal.

use vstd::prelude::*;
use crate::fixed::{
    SCALE, tdiv, isqrt, is_isqrt, lemma_isqrt, lemma_tdiv, lemma_tdiv_bound_by_multiple,
    lemma_mul_abs_bound,
};
use crate::vec::{Vec3, in_range, dot_wide, norm2_wide, length_fx, lemma_norm2_nonneg};
use crate::vec_util::{unit_of, lemma_comp_le_length};

verus! {

/// The exact (untruncated) cross product is orthogonal to both operands:
/// the six wide products cancel identically.
pub proof fn lemma_cross_orthogonal_exact(v: Vec3, w: Vec3)
    by (nonlinear_arith)
    ensures
        v.x * (v.y * w.z - v.z * w.y) + v.y * (v.z * w.x - v.x * w.z) + v.z * (v.x * w.y - v.y
            * w.x) == 0,
        w.x * (v.y * w.z - v.z * w.y) + w.y * (v.z * w.x - v.x * w.z) + w.z * (v.x * w.y - v.y
            * w.x) == 0,
{
}

/// Exact mirror reflection, with `s = |n|^2` clearing the denominator:
/// `R = s*v - 2*(v.n)*n` satisfies `R.n == -s*(v.n)` and
/// `|R|^2 == s^2 * |v|^2` — reflection about a unit normal negates the
/// normal component and preserves length.
#[verifier::rlimit(100)]
pub proof fn lemma_reflect_exact(v: Vec3, n: Vec3)
    ensures
        ({
            let s = norm2_wide(n);
            let d = dot_wide(v, n);
            let rx = s * v.x - 2 * d * n.x;
            let ry = s * v.y - 2 * d * n.y;
            let rz = s * v.z - 2 * d * n.z;
            rx * n.x + ry * n.y + rz * n.z == -(s * d) && rx * rx + ry * ry + rz * rz == s * s * (
            v.x * v.x + v.y * v.y + v.z * v.z)
        }),
{
    let s = norm2_wide(n);
    let d = dot_wide(v, n);
    let rx = s * v.x - 2 * d * n.x;
    let ry = s * v.y - 2 * d * n.y;
    let rz = s * v.z - 2 * d * n.z;
    assert(rx * n.x == s * (v.x * n.x) - 2 * d * (n.x * n.x)) by (nonlinear_arith)
        requires
            rx == s * v.x - 2 * d * n.x,
    ;
    assert(ry * n.y == s * (v.y * n.y) - 2 * d * (n.y * n.y)) by (nonlinear_arith)
        requires
            ry == s * v.y - 2 * d * n.y,
    ;
    assert(rz * n.z == s * (v.z * n.z) - 2 * d * (n.z * n.z)) by (nonlinear_arith)
        requires
            rz == s * v.z - 2 * d * n.z,
    ;
    assert(s * (v.x * n.x) + s * (v.y * n.y) + s * (v.z * n.z) == s * d && 2 * d * (n.x * n.x) + 2
        * d * (n.y * n.y) + 2 * d * (n.z * n.z) == 2 * d * s) by (nonlinear_arith)
        requires
            d == v.x * n.x + v.y * n.y + v.z * n.z,
            s == n.x * n.x + n.y * n.y + n.z * n.z,
    ;
    assert(s * d - 2 * d * s == -(s * d)) by (nonlinear_arith);
    lemma_square_binomial(rx, s, d, v.x as int, n.x as int);
    lemma_square_binomial(ry, s, d, v.y as int, n.y as int);
    lemma_square_binomial(rz, s, d, v.z as int, n.z as int);
    assert((s * s) * (v.x * v.x) + (s * s) * (v.y * v.y) + (s * s) * (v.z * v.z) == (s * s) * (v.x
        * v.x + v.y * v.y + v.z * v.z)) by (nonlinear_arith);
    assert(((s * d) * (v.x * n.x)) + ((s * d) * (v.y * n.y)) + ((s * d) * (v.z * n.z)) == (s * d)
        * d) by (nonlinear_arith)
        requires
            d == v.x * n.x + v.y * n.y + v.z * n.z,
    ;
    assert(((d * d) * (n.x * n.x)) + ((d * d) * (n.y * n.y)) + ((d * d) * (n.z * n.z)) == (d * d)
        * s) by (nonlinear_arith)
        requires
            s == n.x * n.x + n.y * n.y + n.z * n.z,
    ;
    assert((s * d) * d == (d * d) * s) by (nonlinear_arith);
}

/// Expanding one component of the squared reflection:
/// `(s*a - 2*d*b)^2 == s^2 a^2 - 4 (s d)(a b) + 4 (d d)(b b)`.
proof fn lemma_square_binomial(r: int, s: int, d: int, a: int, b: int)
    requires
        r == s * a - 2 * d * b,
    ensures
        r * r == (s * s) * (a * a) - 4 * ((s * d) * (a * b)) + 4 * ((d * d) * (b * b)),
{
    let p = s * a;
    let m = 2 * d * b;
    assert(r * r == p * p - 2 * (p * m) + m * m) by (nonlinear_arith)
        requires
            r == p - m,
    ;
    assert(p * p == (s * s) * (a * a)) by (nonlinear_arith)
        requires
            p == s * a,
    ;
    assert(p * m == 2 * ((s * d) * (a * b))) by (nonlinear_arith)
        requires
            p == s * a,
            m == 2 * d * b,
    ;
    assert(m * m == 4 * ((d * d) * (b * b))) by (nonlinear_arith)
        requires
            m == 2 * d * b,
    ;
}

/// Normalizing a vector of length at least one gives a vector whose
/// fixed-point length is one to within four units of the last place.
pub proof fn lemma_unit_vector_length(v: Vec3)
    requires
        in_range(v),
        norm2_wide(v) >= (SCALE as int) * (SCALE as int),
    ensures
        SCALE - 4 <= length_fx(unit_of(v)) <= SCALE + 4,
{
    let s = SCALE as int;
    let q = norm2_wide(v);
    lemma_norm2_nonneg(v);
    lemma_isqrt(q);
    let ll = isqrt(q);
    assert(s <= ll) by (nonlinear_arith)
        requires
            is_isqrt(q, ll),
            q >= s * s,
            s == 1_000_000_000int,
    ;
    lemma_comp_le_length(v, ll);
    lemma_tdiv((v.x as int) * s, ll);
    lemma_tdiv((v.y as int) * s, ll);
    lemma_tdiv((v.z as int) * s, ll);
    let ux = tdiv((v.x as int) * s, ll);
    let uy = tdiv((v.y as int) * s, ll);
    let uz = tdiv((v.z as int) * s, ll);
    let ex = (v.x as int) * s - ux * ll;
    let ey = (v.y as int) * s - uy * ll;
    let ez = (v.z as int) * s - uz * ll;
    assert(-ll < ex < ll && -ll < ey < ll && -ll < ez < ll);
    assert((v.x as int) * s <= ll * s && -(ll * s) <= (v.x as int) * s && (v.y as int) * s <= ll
        * s && -(ll * s) <= (v.y as int) * s && (v.z as int) * s <= ll * s && -(ll * s) <= (
    v.z as int) * s) by (nonlinear_arith)
        requires
            -ll <= v.x as int <= ll,
            -ll <= v.y as int <= ll,
            -ll <= v.z as int <= ll,
            0 < s,
    ;
    vstd::arithmetic::mul::lemma_mul_is_commutative(s, ll);
    lemma_tdiv_bound_by_multiple((v.x as int) * s, ll, s);
    lemma_tdiv_bound_by_multiple((v.y as int) * s, ll, s);
    lemma_tdiv_bound_by_multiple((v.z as int) * s, ll, s);
    assert(-s <= ux <= s && -s <= uy <= s && -s <= uz <= s);
    let u = unit_of(v);
    assert(u.x as int == ux && u.y as int == uy && u.z as int == uz);
    let nn = norm2_wide(u);
    let ll2 = ll * ll;
    // expand each squared component
    assert((ux * ll) * (ux * ll) == ux * ux * ll2) by (nonlinear_arith)
        requires
            ll2 == ll * ll,
    ;
    assert((uy * ll) * (uy * ll) == uy * uy * ll2) by (nonlinear_arith)
        requires
            ll2 == ll * ll,
    ;
    assert((uz * ll) * (uz * ll) == uz * uz * ll2) by (nonlinear_arith)
        requires
            ll2 == ll * ll,
    ;
    assert((ux * ll) * (ux * ll) == (v.x as int) * (v.x as int) * (s * s) - 2 * s * ((v.x as int)
        * ex) + ex * ex) by (nonlinear_arith)
        requires
            ux * ll == (v.x as int) * s - ex,
    ;
    assert((uy * ll) * (uy * ll) == (v.y as int) * (v.y as int) * (s * s) - 2 * s * ((v.y as int)
        * ey) + ey * ey) by (nonlinear_arith)
        requires
            uy * ll == (v.y as int) * s - ey,
    ;
    assert((uz * ll) * (uz * ll) == (v.z as int) * (v.z as int) * (s * s) - 2 * s * ((v.z as int)
        * ez) + ez * ez) by (nonlinear_arith)
        requires
            uz * ll == (v.z as int) * s - ez,
    ;
    assert(nn * ll2 == ux * ux * ll2 + uy * uy * ll2 + uz * uz * ll2) by (nonlinear_arith)
        requires
            nn == ux * ux + uy * uy + uz * uz,
    ;
    assert((v.x as int) * (v.x as int) * (s * s) + (v.y as int) * (v.y as int) * (s * s) + (
    v.z as int) * (v.z as int) * (s * s) == q * (s * s)) by (nonlinear_arith)
        requires
            q == (v.x as int) * (v.x as int) + (v.y as int) * (v.y as int) + (v.z as int) * (
            v.z as int),
    ;
    let et = (v.x as int) * ex + (v.y as int) * ey + (v.z as int) * ez;
    assert(nn * ll2 == q * (s * s) - 2 * s * et + (ex * ex + ey * ey + ez * ez));
    lemma_mul_abs_bound(v.x as int, ex, ll, ll);
    lemma_mul_abs_bound(v.y as int, ey, ll, ll);
    lemma_mul_abs_bound(v.z as int, ez, ll, ll);
    lemma_mul_abs_bound(ex, ex, ll, ll);
    lemma_mul_abs_bound(ey, ey, ll, ll);
    lemma_mul_abs_bound(ez, ez, ll, ll);
    lemma_norm2_nonneg(u);
    assert(0 <= ex * ex && 0 <= ey * ey && 0 <= ez * ez) by (nonlinear_arith);
    assert(ll2 >= 1) by (nonlinear_arith)
        requires
            ll2 == ll * ll,
            ll >= 1,
    ;
    // lower window
    assert(nn * ll2 >= (s * s - 6 * s) * ll2) by (nonlinear_arith)
        requires
            nn * ll2 == q * (s * s) - 2 * s * et + (ex * ex + ey * ey + ez * ez),
            ll2 == ll * ll,
            q >= ll * ll,
            s == 1_000_000_000int,
            -3 * ll2 <= et <= 3 * ll2,
            0 <= ex * ex && 0 <= ey * ey && 0 <= ez * ez,
    ;
    // upper window
    assert(nn * ll2 <= (s + 4) * (s + 4) * ll2) by (nonlinear_arith)
        requires
            nn * ll2 == q * (s * s) - 2 * s * et + (ex * ex + ey * ey + ez * ez),
            ll2 == ll * ll,
            q < (ll + 1) * (ll + 1),
            s <= ll,
            s == 1_000_000_000int,
            -3 * ll2 <= et <= 3 * ll2,
            ex * ex <= ll2 && ey * ey <= ll2 && ez * ez <= ll2,
    ;
    // cancel the positive factor ll^2
    assert(s * s - 6 * s <= nn && nn <= (s + 4) * (s + 4)) by (nonlinear_arith)
        requires
            nn * ll2 >= (s * s - 6 * s) * ll2,
            nn * ll2 <= (s + 4) * (s + 4) * ll2,
            ll2 >= 1,
    ;
    // the window on nn gives the window on its root
    lemma_isqrt(nn);
    let r = isqrt(nn);
    assert(s - 4 <= r <= s + 4) by (nonlinear_arith)
        requires
            is_isqrt(nn, r),
            s * s - 6 * s <= nn <= (s + 4) * (s + 4),
            s == 1_000_000_000int,
    ;
}

} // verus!
