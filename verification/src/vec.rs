//! Three-component fixed-point vectors, used as points, directions and
//! colors.  Component-wise operations are exact integer arithmetic; products
//! and quotients round toward zero as `fixed::fmul` / `fixed::fdiv` state.

use vstd::prelude::*;
use crate::fixed::{SCALE, tdiv, fmul, fx_mul, fx_div, isqrt, is_isqrt, lemma_isqrt, lemma_tdiv};

verus! {

/// Magnitude cap on a single component of an in-range vector (about a
/// thousand scene units): keeps every dot product, length and intersection
/// computation inside `i64`/`i128`.
pub const COORD_MAX: i64 = 1_099_511_627_776;

/// Components smaller than this count as zero (`near_zero`).
pub const NEAR_ZERO: i64 = 10;

#[derive(Clone, Copy, Debug, PartialEq, Eq, Structural)]
pub struct Vec3 {
    pub x: i64,
    pub y: i64,
    pub z: i64,
}

/// A point in space; the same representation as any other vector.
pub type Point3 = Vec3;

/// A color: channels `r`, `g`, `b` at fixed-point scale, `SCALE` = 1.0.
pub type Color3 = Vec3;

/// Every component within `COORD_MAX`: the range all geometric inputs of the
/// tracer live in.
pub open spec fn in_range(v: Vec3) -> bool {
    &&& -COORD_MAX <= v.x <= COORD_MAX
    &&& -COORD_MAX <= v.y <= COORD_MAX
    &&& -COORD_MAX <= v.z <= COORD_MAX
}

/// The dot product of the raw components, at scale `SCALE * SCALE`.
pub open spec fn dot_wide(u: Vec3, v: Vec3) -> int {
    (u.x * v.x + u.y * v.y + u.z * v.z) as int
}

/// The fixed-point dot product.
pub open spec fn dot_fx(u: Vec3, v: Vec3) -> int {
    tdiv(dot_wide(u, v), SCALE as int)
}

/// Squared length of the raw components, at scale `SCALE * SCALE`.
pub open spec fn norm2_wide(v: Vec3) -> int {
    dot_wide(v, v)
}

/// The fixed-point length: `isqrt` of a `SCALE * SCALE` quantity is a `SCALE`
/// quantity.
pub open spec fn length_fx(v: Vec3) -> int {
    isqrt(norm2_wide(v))
}

/// The fixed-point squared length.
pub open spec fn length_squared_fx(v: Vec3) -> int {
    tdiv(norm2_wide(v), SCALE as int)
}

/// All three components are below the `near_zero` threshold in magnitude.
pub open spec fn spec_near_zero(v: Vec3) -> bool {
    &&& -NEAR_ZERO < v.x < NEAR_ZERO
    &&& -NEAR_ZERO < v.y < NEAR_ZERO
    &&& -NEAR_ZERO < v.z < NEAR_ZERO
}

/// What `random_unit_vector` returns: the normalization of some nonzero
/// vector drawn inside the unit sphere.
pub open spec fn is_unit_sample(r: Vec3) -> bool {
    &&& -SCALE <= r.x <= SCALE
    &&& -SCALE <= r.y <= SCALE
    &&& -SCALE <= r.z <= SCALE
    &&& exists|p: Vec3|
        in_range(p) && 1 <= norm2_wide(p) < (SCALE as int) * (SCALE as int)
            && #[trigger] crate::vec_util::is_unit_of(p, r)
}

/// Component-wise sum at the spec level (the components must fit).
pub open spec fn spec_add(a: Vec3, b: Vec3) -> Vec3 {
    Vec3 { x: (a.x + b.x) as i64, y: (a.y + b.y) as i64, z: (a.z + b.z) as i64 }
}

/// Component-wise negation at the spec level.
pub open spec fn spec_neg(v: Vec3) -> Vec3 {
    Vec3 { x: (-v.x) as i64, y: (-v.y) as i64, z: (-v.z) as i64 }
}

/// Negating one operand negates the wide dot product.
pub proof fn lemma_dot_wide_neg(u: Vec3, v: Vec3, nv: Vec3)
    requires
        nv.x == -v.x && nv.y == -v.y && nv.z == -v.z,
    ensures
        dot_wide(u, nv) == -dot_wide(u, v),
{
    assert(u.x * nv.x == -(u.x * v.x) && u.y * nv.y == -(u.y * v.y)
        && u.z * nv.z == -(u.z * v.z)) by (nonlinear_arith)
        requires
            nv.x == -v.x && nv.y == -v.y && nv.z == -v.z,
    ;
}

/// Negating the dividend negates a truncating quotient, so negating one
/// operand negates the fixed-point dot product.
pub proof fn lemma_dot_fx_neg(u: Vec3, v: Vec3, nv: Vec3)
    requires
        nv.x == -v.x && nv.y == -v.y && nv.z == -v.z,
    ensures
        dot_fx(u, nv) == -dot_fx(u, v),
{
    lemma_dot_wide_neg(u, v, nv);
    let w = dot_wide(u, v);
    if w == 0 {
        vstd::arithmetic::div_mod::lemma_div_of0(SCALE as int);
    }
    assert(tdiv(-w, SCALE as int) == -tdiv(w, SCALE as int));
}

/// The zero vector has a zero dot product with anything.
pub proof fn lemma_dot_fx_zero_left(v: Vec3, n: Vec3)
    requires
        v.x == 0 && v.y == 0 && v.z == 0,
    ensures
        dot_fx(v, n) == 0,
{
    assert(v.x * n.x == 0 && v.y * n.y == 0 && v.z * n.z == 0) by (nonlinear_arith)
        requires
            v.x == 0 && v.y == 0 && v.z == 0,
    ;
    vstd::arithmetic::div_mod::lemma_div_of0(SCALE as int);
}

/// A vector with a nonzero component has a wide squared length of at least
/// one.
pub proof fn lemma_nonzero_norm2(v: Vec3)
    requires
        v.x != 0 || v.y != 0 || v.z != 0,
    ensures
        norm2_wide(v) >= 1,
{
    assert(norm2_wide(v) >= 1) by (nonlinear_arith)
        requires
            v.x != 0 || v.y != 0 || v.z != 0,
    ;
}

/// A square is nonnegative, so `norm2_wide` is nonnegative.
pub proof fn lemma_norm2_nonneg(v: Vec3)
    ensures
        norm2_wide(v) >= 0,
        v.x * v.x >= 0 && v.y * v.y >= 0 && v.z * v.z >= 0,
{
    assert(v.x * v.x >= 0 && v.y * v.y >= 0 && v.z * v.z >= 0) by (nonlinear_arith);
}

/// For in-range vectors the wide dot product stays well inside `i128`.
pub proof fn lemma_dot_wide_bound(u: Vec3, v: Vec3)
    requires
        in_range(u),
        in_range(v),
    ensures
        -3 * (COORD_MAX as int) * (COORD_MAX as int) <= dot_wide(u, v)
            <= 3 * (COORD_MAX as int) * (COORD_MAX as int),
        -(COORD_MAX as int) * (COORD_MAX as int) <= u.x * v.x
            <= (COORD_MAX as int) * (COORD_MAX as int),
        -(COORD_MAX as int) * (COORD_MAX as int) <= u.y * v.y
            <= (COORD_MAX as int) * (COORD_MAX as int),
        -(COORD_MAX as int) * (COORD_MAX as int) <= u.z * v.z
            <= (COORD_MAX as int) * (COORD_MAX as int),
{
    crate::fixed::lemma_mul_abs_bound(u.x as int, v.x as int, COORD_MAX as int, COORD_MAX as int);
    crate::fixed::lemma_mul_abs_bound(u.y as int, v.y as int, COORD_MAX as int, COORD_MAX as int);
    crate::fixed::lemma_mul_abs_bound(u.z as int, v.z as int, COORD_MAX as int, COORD_MAX as int);
}

impl Vec3 {
    /// The zero vector.
    pub fn new() -> (r: Vec3)
        ensures
            r.x == 0 && r.y == 0 && r.z == 0,
    {
        Vec3 { x: 0, y: 0, z: 0 }
    }

    /// A vector from three fixed-point components.
    pub fn from(x: i64, y: i64, z: i64) -> (r: Vec3)
        ensures
            r.x == x && r.y == y && r.z == z,
    {
        Vec3 { x, y, z }
    }

    pub fn x(&self) -> (r: i64)
        ensures
            r == self.x,
    {
        self.x
    }

    pub fn y(&self) -> (r: i64)
        ensures
            r == self.y,
    {
        self.y
    }

    pub fn z(&self) -> (r: i64)
        ensures
            r == self.z,
    {
        self.z
    }

    /// Component-wise sum.
    pub fn add(&self, rhs: &Vec3) -> (r: Vec3)
        requires
            i64::MIN <= self.x + rhs.x <= i64::MAX,
            i64::MIN <= self.y + rhs.y <= i64::MAX,
            i64::MIN <= self.z + rhs.z <= i64::MAX,
        ensures
            r.x == self.x + rhs.x && r.y == self.y + rhs.y && r.z == self.z + rhs.z,
    {
        Vec3 { x: self.x + rhs.x, y: self.y + rhs.y, z: self.z + rhs.z }
    }

    /// Component-wise difference.
    pub fn sub(&self, rhs: &Vec3) -> (r: Vec3)
        requires
            i64::MIN <= self.x - rhs.x <= i64::MAX,
            i64::MIN <= self.y - rhs.y <= i64::MAX,
            i64::MIN <= self.z - rhs.z <= i64::MAX,
        ensures
            r.x == self.x - rhs.x && r.y == self.y - rhs.y && r.z == self.z - rhs.z,
    {
        Vec3 { x: self.x - rhs.x, y: self.y - rhs.y, z: self.z - rhs.z }
    }

    /// Negation of all three components.
    pub fn neg(&self) -> (r: Vec3)
        requires
            self.x > i64::MIN && self.y > i64::MIN && self.z > i64::MIN,
        ensures
            r.x == -self.x && r.y == -self.y && r.z == -self.z,
    {
        Vec3 { x: -self.x, y: -self.y, z: -self.z }
    }

    /// Component-wise fixed-point product.
    pub fn mul(&self, rhs: &Vec3) -> (r: Vec3)
        requires
            i64::MIN <= fmul(self.x as int, rhs.x as int) <= i64::MAX,
            i64::MIN <= fmul(self.y as int, rhs.y as int) <= i64::MAX,
            i64::MIN <= fmul(self.z as int, rhs.z as int) <= i64::MAX,
        ensures
            r.x == fmul(self.x as int, rhs.x as int),
            r.y == fmul(self.y as int, rhs.y as int),
            r.z == fmul(self.z as int, rhs.z as int),
    {
        Vec3 { x: fx_mul(self.x, rhs.x), y: fx_mul(self.y, rhs.y), z: fx_mul(self.z, rhs.z) }
    }

    /// Product with a fixed-point scalar.
    pub fn scale(&self, t: i64) -> (r: Vec3)
        requires
            i64::MIN <= fmul(self.x as int, t as int) <= i64::MAX,
            i64::MIN <= fmul(self.y as int, t as int) <= i64::MAX,
            i64::MIN <= fmul(self.z as int, t as int) <= i64::MAX,
        ensures
            r.x == fmul(self.x as int, t as int),
            r.y == fmul(self.y as int, t as int),
            r.z == fmul(self.z as int, t as int),
    {
        Vec3 { x: fx_mul(self.x, t), y: fx_mul(self.y, t), z: fx_mul(self.z, t) }
    }

    /// Quotient by a nonzero fixed-point scalar.
    pub fn div(&self, t: i64) -> (r: Vec3)
        requires
            t != 0,
            i64::MIN <= crate::fixed::fdiv(self.x as int, t as int) <= i64::MAX,
            i64::MIN <= crate::fixed::fdiv(self.y as int, t as int) <= i64::MAX,
            i64::MIN <= crate::fixed::fdiv(self.z as int, t as int) <= i64::MAX,
        ensures
            r.x == crate::fixed::fdiv(self.x as int, t as int),
            r.y == crate::fixed::fdiv(self.y as int, t as int),
            r.z == crate::fixed::fdiv(self.z as int, t as int),
    {
        Vec3 { x: fx_div(self.x, t), y: fx_div(self.y, t), z: fx_div(self.z, t) }
    }

    /// In-place component-wise sum.
    pub fn add_assign(&mut self, rhs: &Vec3)
        requires
            i64::MIN <= old(self).x + rhs.x <= i64::MAX,
            i64::MIN <= old(self).y + rhs.y <= i64::MAX,
            i64::MIN <= old(self).z + rhs.z <= i64::MAX,
        ensures
            final(self).x == old(self).x + rhs.x,
            final(self).y == old(self).y + rhs.y,
            final(self).z == old(self).z + rhs.z,
    {
        self.x = self.x + rhs.x;
        self.y = self.y + rhs.y;
        self.z = self.z + rhs.z;
    }

    /// In-place component-wise fixed-point product.
    pub fn mul_assign(&mut self, rhs: &Vec3)
        requires
            i64::MIN <= fmul(old(self).x as int, rhs.x as int) <= i64::MAX,
            i64::MIN <= fmul(old(self).y as int, rhs.y as int) <= i64::MAX,
            i64::MIN <= fmul(old(self).z as int, rhs.z as int) <= i64::MAX,
        ensures
            final(self).x == fmul(old(self).x as int, rhs.x as int),
            final(self).y == fmul(old(self).y as int, rhs.y as int),
            final(self).z == fmul(old(self).z as int, rhs.z as int),
    {
        self.x = fx_mul(self.x, rhs.x);
        self.y = fx_mul(self.y, rhs.y);
        self.z = fx_mul(self.z, rhs.z);
    }

    /// In-place quotient by a nonzero fixed-point scalar.
    pub fn div_assign(&mut self, t: i64)
        requires
            t != 0,
            i64::MIN <= crate::fixed::fdiv(old(self).x as int, t as int) <= i64::MAX,
            i64::MIN <= crate::fixed::fdiv(old(self).y as int, t as int) <= i64::MAX,
            i64::MIN <= crate::fixed::fdiv(old(self).z as int, t as int) <= i64::MAX,
        ensures
            final(self).x == crate::fixed::fdiv(old(self).x as int, t as int),
            final(self).y == crate::fixed::fdiv(old(self).y as int, t as int),
            final(self).z == crate::fixed::fdiv(old(self).z as int, t as int),
    {
        self.x = fx_div(self.x, t);
        self.y = fx_div(self.y, t);
        self.z = fx_div(self.z, t);
    }

    /// A vector of three independent uniform samples in `[0, 1)`.
    pub fn random(rng: &mut crate::math::RandomSource) -> (r: Vec3)
        ensures
            0 <= r.x < SCALE && 0 <= r.y < SCALE && 0 <= r.z < SCALE,
    {
        let x = crate::math::random_double(rng);
        let y = crate::math::random_double(rng);
        let z = crate::math::random_double(rng);
        Vec3 { x, y, z }
    }

    /// A vector of three independent uniform samples in `[min, max)`.
    pub fn random_between(min: i64, max: i64, rng: &mut crate::math::RandomSource) -> (r: Vec3)
        requires
            min < max,
            max - min <= i64::MAX,
        ensures
            min <= r.x < max && min <= r.y < max && min <= r.z < max,
    {
        let x = crate::math::random_double_between(min, max, rng);
        let y = crate::math::random_double_between(min, max, rng);
        let z = crate::math::random_double_between(min, max, rng);
        Vec3 { x, y, z }
    }

    /// A nonzero vector drawn inside the unit sphere: rejection sampling
    /// over the cube `[-1, 1)^3`, with a fixed interior fallback after a
    /// bounded number of tries (a run that long does not occur in practice).
    pub fn random_in_unit_sphere(rng: &mut crate::math::RandomSource) -> (r: Vec3)
        ensures
            1 <= norm2_wide(r) < (SCALE as int) * (SCALE as int),
            -SCALE <= r.x <= SCALE && -SCALE <= r.y <= SCALE && -SCALE <= r.z <= SCALE,
            length_squared_fx(r) < SCALE,
    {
        let mut tries: u32 = 0;
        let mut found = false;
        let mut p = Vec3 { x: 500_000_000, y: 0, z: 0 };
        proof {
            assert(norm2_wide(p) == 250_000_000_000_000_000int);
        }
        while tries < 64 && !found
            invariant
                1 <= norm2_wide(p) < (SCALE as int) * (SCALE as int),
                -SCALE <= p.x <= SCALE && -SCALE <= p.y <= SCALE && -SCALE <= p.z <= SCALE,
            decreases 64 - tries,
        {
            let c = Vec3::random_between(-SCALE, SCALE, rng);
            let nonzero = c.x != 0 || c.y != 0 || c.z != 0;
            proof {
                lemma_norm2_nonneg(c);
                if c.x != 0 || c.y != 0 || c.z != 0 {
                    lemma_nonzero_norm2(c);
                }
            }
            if nonzero {
                proof {
                    lemma_dot_wide_bound(c, c);
                }
                let px: i128 = (c.x as i128) * (c.x as i128);
                let py: i128 = (c.y as i128) * (c.y as i128);
                let pz: i128 = (c.z as i128) * (c.z as i128);
                if px + py + pz < 1_000_000_000_000_000_000 {
                    p = c;
                    found = true;
                }
            }
            tries = tries + 1;
        }
        proof {
            lemma_norm2_nonneg(p);
            crate::fixed::lemma_tdiv_ordered(
                norm2_wide(p),
                999_999_999_999_999_999int,
                SCALE as int,
            );
            vstd::arithmetic::div_mod::lemma_fundamental_div_mod_converse_div(
                999_999_999_999_999_999int,
                SCALE as int,
                999_999_999int,
                999_999_999int,
            );
        }
        p
    }

    /// A vector of length one unit, uniform over directions: a unit-sphere
    /// sample, normalized.
    pub fn random_unit_vector(rng: &mut crate::math::RandomSource) -> (r: Vec3)
        ensures
            is_unit_sample(r),
    {
        let p = Vec3::random_in_unit_sphere(rng);
        let u = crate::vec_util::unit_vector(&p);
        proof {
            assert(in_range(p) && 1 <= norm2_wide(p) < (SCALE as int) * (SCALE as int)
                && crate::vec_util::is_unit_of(p, u));
        }
        u
    }

    /// The fixed-point squared length.
    pub fn length_squared(&self) -> (r: i64)
        requires
            in_range(*self),
        ensures
            r == length_squared_fx(*self),
            r >= 0,
    {
        proof {
            lemma_dot_wide_bound(*self, *self);
            lemma_norm2_nonneg(*self);
            lemma_tdiv(norm2_wide(*self), SCALE as int);
        }
        let px: i128 = (self.x as i128) * (self.x as i128);
        let py: i128 = (self.y as i128) * (self.y as i128);
        let pz: i128 = (self.z as i128) * (self.z as i128);
        let q = crate::fixed::tdiv_i128(px + py + pz, 1_000_000_000);
        q as i64
    }

    /// The fixed-point length.
    pub fn length(&self) -> (r: i64)
        requires
            in_range(*self),
        ensures
            r == length_fx(*self),
            is_isqrt(norm2_wide(*self), r as int),
            r >= 0,
    {
        proof {
            lemma_dot_wide_bound(*self, *self);
            lemma_norm2_nonneg(*self);
        }
        let px: i128 = (self.x as i128) * (self.x as i128);
        let py: i128 = (self.y as i128) * (self.y as i128);
        let pz: i128 = (self.z as i128) * (self.z as i128);
        let w: u128 = (px + py + pz) as u128;
        let r = crate::fixed::isqrt_u128(w);
        proof {
            assert(r as int <= i64::MAX as int) by (nonlinear_arith)
                requires
                    0 <= r as int,
                    (r as int) * (r as int) <= w as int,
                    w as int <= 0x2000_0000_0000_0000_0000_0000int,
            ;
        }
        r as i64
    }

    /// True when every component is below the `near_zero` threshold.
    pub fn near_zero(&self) -> (r: bool)
        ensures
            r == spec_near_zero(*self),
    {
        -NEAR_ZERO < self.x && self.x < NEAR_ZERO
            && -NEAR_ZERO < self.y && self.y < NEAR_ZERO
            && -NEAR_ZERO < self.z && self.z < NEAR_ZERO
    }
}

impl Color3 {
    /// The red channel.
    pub fn r(&self) -> (c: i64)
        ensures
            c == self.x,
    {
        self.x
    }

    /// The green channel.
    pub fn g(&self) -> (c: i64)
        ensures
            c == self.y,
    {
        self.y
    }

    /// The blue channel.
    pub fn b(&self) -> (c: i64)
        ensures
            c == self.z,
    {
        self.z
    }
}

} // verus!
