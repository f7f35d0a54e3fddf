//! Vector operations that combine components: dot and cross products,
//! normalization and mirror reflection, each with an exact fixed-point
//! contract.

use vstd::prelude::*;
use crate::fixed::{
    SCALE, tdiv, fmul, fdiv, fx_mul, fx_div, isqrt, is_isqrt, lemma_tdiv,
    lemma_tdiv_bound_by_multiple, lemma_mul_abs_bound,
};
use crate::vec::{
    Vec3, COORD_MAX, in_range, dot_wide, dot_fx, norm2_wide, length_fx,
    lemma_norm2_nonneg, lemma_dot_wide_bound,
};

verus! {

/// Every component within four units: the range normals and unit vectors
/// live in, with room to spare.
pub open spec fn small_vec(v: Vec3) -> bool {
    &&& -4 * SCALE <= v.x <= 4 * SCALE
    &&& -4 * SCALE <= v.y <= 4 * SCALE
    &&& -4 * SCALE <= v.z <= 4 * SCALE
}

/// What `unit_vector` returns: each component of `v` divided by the
/// fixed-point length of `v`.
pub open spec fn is_unit_of(v: Vec3, r: Vec3) -> bool {
    &&& r.x == tdiv(v.x * SCALE, length_fx(v))
    &&& r.y == tdiv(v.y * SCALE, length_fx(v))
    &&& r.z == tdiv(v.z * SCALE, length_fx(v))
}

/// What `reflect` returns: `v - 2 * dot(v, n) * n`, in fixed point.
pub open spec fn is_reflect_of(v: Vec3, n: Vec3, r: Vec3) -> bool {
    &&& r.x == v.x - fmul(2 * dot_fx(v, n), n.x as int)
    &&& r.y == v.y - fmul(2 * dot_fx(v, n), n.y as int)
    &&& r.z == v.z - fmul(2 * dot_fx(v, n), n.z as int)
}

/// The normalization of `v` at the spec level: each component divided by the
/// fixed-point length (components fit because they are bounded by `SCALE`).
pub open spec fn unit_of(v: Vec3) -> Vec3 {
    Vec3 {
        x: tdiv(v.x * SCALE, length_fx(v)) as i64,
        y: tdiv(v.y * SCALE, length_fx(v)) as i64,
        z: tdiv(v.z * SCALE, length_fx(v)) as i64,
    }
}

/// The mirror reflection of `v` about `n` at the spec level.
pub open spec fn reflect_of(v: Vec3, n: Vec3) -> Vec3 {
    Vec3 {
        x: (v.x - fmul(2 * dot_fx(v, n), n.x as int)) as i64,
        y: (v.y - fmul(2 * dot_fx(v, n), n.y as int)) as i64,
        z: (v.z - fmul(2 * dot_fx(v, n), n.z as int)) as i64,
    }
}

/// The cross product at the spec level (components of in-range operands fit).
pub open spec fn cross_of(u: Vec3, v: Vec3) -> Vec3 {
    Vec3 {
        x: (fmul(u.y as int, v.z as int) - fmul(u.z as int, v.y as int)) as i64,
        y: (fmul(u.z as int, v.x as int) - fmul(u.x as int, v.z as int)) as i64,
        z: (fmul(u.x as int, v.y as int) - fmul(u.y as int, v.x as int)) as i64,
    }
}

/// The components of a vector are bounded by its integer-square-root length.
pub proof fn lemma_comp_le_length(v: Vec3, len: int)
    requires
        is_isqrt(norm2_wide(v), len),
    ensures
        -len <= v.x <= len,
        -len <= v.y <= len,
        -len <= v.z <= len,
{
    lemma_norm2_nonneg(v);
    assert(-len <= v.x <= len && -len <= v.y <= len && -len <= v.z <= len)
        by (nonlinear_arith)
        requires
            0 <= len,
            v.x * v.x + v.y * v.y + v.z * v.z < (len + 1) * (len + 1),
            v.x * v.x >= 0 && v.y * v.y >= 0 && v.z * v.z >= 0,
    ;
}

/// A vector with a nonzero component has a length of at least one unit.
pub proof fn lemma_length_pos(v: Vec3, len: int)
    requires
        is_isqrt(norm2_wide(v), len),
        norm2_wide(v) >= 1,
    ensures
        len >= 1,
{
    assert(len >= 1) by (nonlinear_arith)
        requires
            0 <= len,
            1 <= norm2_wide(v) < (len + 1) * (len + 1),
    ;
}

/// Fixed-point dot product.
pub fn dot(u: &Vec3, v: &Vec3) -> (r: i64)
    requires
        in_range(*u),
        in_range(*v),
    ensures
        r == dot_fx(*u, *v),
        -4_000_000_000_000_000 <= r <= 4_000_000_000_000_000,
{
    proof {
        lemma_dot_wide_bound(*u, *v);
        lemma_tdiv_bound_by_multiple(
            dot_wide(*u, *v),
            SCALE as int,
            4_000_000_000_000_000,
        );
    }
    let px: i128 = (u.x as i128) * (v.x as i128);
    let py: i128 = (u.y as i128) * (v.y as i128);
    let pz: i128 = (u.z as i128) * (v.z as i128);
    let q = crate::fixed::tdiv_i128(px + py + pz, 1_000_000_000);
    q as i64
}

/// Fixed-point cross product.
pub fn cross(u: &Vec3, v: &Vec3) -> (r: Vec3)
    requires
        in_range(*u),
        in_range(*v),
    ensures
        r.x == fmul(u.y as int, v.z as int) - fmul(u.z as int, v.y as int),
        r.y == fmul(u.z as int, v.x as int) - fmul(u.x as int, v.z as int),
        r.z == fmul(u.x as int, v.y as int) - fmul(u.y as int, v.x as int),
        r == cross_of(*u, *v),
{
    proof {
        lemma_cross_term_fits(u.y as int, v.z as int);
        lemma_cross_term_fits(u.z as int, v.y as int);
        lemma_cross_term_fits(u.z as int, v.x as int);
        lemma_cross_term_fits(u.x as int, v.z as int);
        lemma_cross_term_fits(u.x as int, v.y as int);
        lemma_cross_term_fits(u.y as int, v.x as int);
    }
    Vec3 {
        x: fx_mul(u.y, v.z) - fx_mul(u.z, v.y),
        y: fx_mul(u.z, v.x) - fx_mul(u.x, v.z),
        z: fx_mul(u.x, v.y) - fx_mul(u.y, v.x),
    }
}

/// A product of two in-range components, scaled down, stays far inside `i64`.
pub proof fn lemma_cross_term_fits(a: int, b: int)
    requires
        -COORD_MAX <= a <= COORD_MAX,
        -COORD_MAX <= b <= COORD_MAX,
    ensures
        -2_000_000_000_000_000 <= fmul(a, b) <= 2_000_000_000_000_000,
{
    lemma_mul_abs_bound(a, b, COORD_MAX as int, COORD_MAX as int);
    lemma_tdiv_bound_by_multiple(a * b, SCALE as int, 2_000_000_000_000_000);
}

/// The vector of length one unit pointing the way `v` points.
pub fn unit_vector(v: &Vec3) -> (r: Vec3)
    requires
        in_range(*v),
        norm2_wide(*v) >= 1,
    ensures
        is_unit_of(*v, r),
        r == unit_of(*v),
        -SCALE <= r.x <= SCALE,
        -SCALE <= r.y <= SCALE,
        -SCALE <= r.z <= SCALE,
{
    let len = v.length();
    proof {
        lemma_length_pos(*v, len as int);
        lemma_comp_le_length(*v, len as int);
        lemma_unit_div_fits(v.x as int, len as int);
        lemma_unit_div_fits(v.y as int, len as int);
        lemma_unit_div_fits(v.z as int, len as int);
    }
    Vec3 { x: fx_div(v.x, len), y: fx_div(v.y, len), z: fx_div(v.z, len) }
}

/// Dividing a component by a length at least as large keeps the quotient
/// within one unit.
proof fn lemma_unit_div_fits(a: int, len: int)
    requires
        1 <= len,
        -len <= a <= len,
    ensures
        -SCALE <= fdiv(a, len) <= SCALE,
{
    assert(-(len * (SCALE as int)) <= a * (SCALE as int) <= len * (SCALE as int))
        by (nonlinear_arith)
        requires
            1 <= len,
            -len <= a <= len,
    ;
    vstd::arithmetic::mul::lemma_mul_is_commutative(len, SCALE as int);
    lemma_tdiv_bound_by_multiple(a * (SCALE as int), len, SCALE as int);
}

/// Mirror reflection of `v` about the normal `n`: `v - 2 * dot(v, n) * n`.
pub fn reflect(v: &Vec3, n: &Vec3) -> (r: Vec3)
    requires
        small_vec(*v),
        small_vec(*n),
    ensures
        is_reflect_of(*v, *n, r),
        r == reflect_of(*v, *n),
        in_range(r),
{
    proof {
        lemma_small_dot_bound(*v, *n);
    }
    let d = dot(v, n);
    let two_d = 2 * d;
    proof {
        lemma_reflect_term_fits(two_d as int, n.x as int);
        lemma_reflect_term_fits(two_d as int, n.y as int);
        lemma_reflect_term_fits(two_d as int, n.z as int);
    }
    Vec3 {
        x: v.x - fx_mul(two_d, n.x),
        y: v.y - fx_mul(two_d, n.y),
        z: v.z - fx_mul(two_d, n.z),
    }
}

/// The dot product of two small vectors is at most 48 units.
proof fn lemma_small_dot_bound(v: Vec3, n: Vec3)
    requires
        small_vec(v),
        small_vec(n),
    ensures
        -48 * (SCALE as int) <= dot_fx(v, n) <= 48 * (SCALE as int),
{
    lemma_mul_abs_bound(v.x as int, n.x as int, 4_000_000_000, 4_000_000_000);
    lemma_mul_abs_bound(v.y as int, n.y as int, 4_000_000_000, 4_000_000_000);
    lemma_mul_abs_bound(v.z as int, n.z as int, 4_000_000_000, 4_000_000_000);
    lemma_tdiv_bound_by_multiple(dot_wide(v, n), SCALE as int, 48_000_000_000);
}

/// A scaled product of a bounded dot with a small component stays inside
/// range.
proof fn lemma_reflect_term_fits(two_d: int, c: int)
    requires
        -96 * (SCALE as int) <= two_d <= 96 * (SCALE as int),
        -4 * (SCALE as int) <= c <= 4 * (SCALE as int),
    ensures
        -384 * (SCALE as int) <= fmul(two_d, c) <= 384 * (SCALE as int),
{
    lemma_mul_abs_bound(two_d, c, 96_000_000_000, 4_000_000_000);
    lemma_tdiv_bound_by_multiple(two_d * c, SCALE as int, 384_000_000_000);
}

} // verus!
