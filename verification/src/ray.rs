//! A ray: an origin point and a direction vector, evaluated as
//! `P(t) = origin + t * direction` in fixed point.

use vstd::prelude::*;
use crate::fixed::{SCALE, tdiv, fmul, fx_mul};
use crate::vec::{Vec3, Point3};
use vstd::arithmetic::div_mod::lemma_div_multiples_vanish;

verus! {

#[derive(Clone, Copy, Debug, PartialEq, Eq, Structural)]
pub struct Ray {
    pub origin: Point3,
    pub direction: Vec3,
}

/// The point a ray reaches at parameter `t`, one coordinate per component.
pub open spec fn at_x(r: Ray, t: int) -> int {
    r.origin.x + fmul(r.direction.x as int, t)
}

pub open spec fn at_y(r: Ray, t: int) -> int {
    r.origin.y + fmul(r.direction.y as int, t)
}

pub open spec fn at_z(r: Ray, t: int) -> int {
    r.origin.z + fmul(r.direction.z as int, t)
}

impl Ray {
    /// The ray at the origin with a zero direction.
    pub fn new() -> (r: Ray)
        ensures
            r.origin.x == 0 && r.origin.y == 0 && r.origin.z == 0,
            r.direction.x == 0 && r.direction.y == 0 && r.direction.z == 0,
    {
        Ray { origin: Vec3::new(), direction: Vec3::new() }
    }

    /// A ray from an origin and a direction.
    pub fn from(origin: Point3, direction: Vec3) -> (r: Ray)
        ensures
            r.origin == origin,
            r.direction == direction,
    {
        Ray { origin, direction }
    }

    pub fn get_origin(&self) -> (r: &Point3)
        ensures
            *r == self.origin,
    {
        &self.origin
    }

    pub fn get_direction(&self) -> (r: &Vec3)
        ensures
            *r == self.direction,
    {
        &self.direction
    }

    /// The point the ray reaches at parameter `t`.
    pub fn at(&self, t: i64) -> (p: Point3)
        requires
            i64::MIN <= fmul(self.direction.x as int, t as int) <= i64::MAX,
            i64::MIN <= fmul(self.direction.y as int, t as int) <= i64::MAX,
            i64::MIN <= fmul(self.direction.z as int, t as int) <= i64::MAX,
            i64::MIN <= at_x(*self, t as int) <= i64::MAX,
            i64::MIN <= at_y(*self, t as int) <= i64::MAX,
            i64::MIN <= at_z(*self, t as int) <= i64::MAX,
        ensures
            p.x == at_x(*self, t as int),
            p.y == at_y(*self, t as int),
            p.z == at_z(*self, t as int),
    {
        Point3 {
            x: self.origin.x + fx_mul(self.direction.x, t),
            y: self.origin.y + fx_mul(self.direction.y, t),
            z: self.origin.z + fx_mul(self.direction.z, t),
        }
    }
}

/// Multiplying a fixed-point value by the scale of one leaves it unchanged.
pub proof fn lemma_fmul_one(d: int)
    ensures
        fmul(d, 0) == 0,
        fmul(d, SCALE as int) == d,
{
    lemma_div_multiples_vanish(d, SCALE as int);
    vstd::arithmetic::mul::lemma_mul_is_commutative(d, SCALE as int);
    if d >= 0 {
        assert(fmul(d, SCALE as int) == d);
    } else {
        lemma_div_multiples_vanish(-d, SCALE as int);
        vstd::arithmetic::mul::lemma_mul_is_commutative(-d, SCALE as int);
        assert((-(d * (SCALE as int))) == (-d) * (SCALE as int));
        assert(fmul(d, SCALE as int) == d);
    }
}

/// A ray at parameter zero is at its origin; at parameter one it is at
/// origin plus direction.
pub proof fn lemma_ray_ends(r: Ray)
    ensures
        at_x(r, 0) == r.origin.x && at_y(r, 0) == r.origin.y && at_z(r, 0) == r.origin.z,
        at_x(r, SCALE as int) == r.origin.x + r.direction.x,
        at_y(r, SCALE as int) == r.origin.y + r.direction.y,
        at_z(r, SCALE as int) == r.origin.z + r.direction.z,
{
    lemma_fmul_one(r.direction.x as int);
    lemma_fmul_one(r.direction.y as int);
    lemma_fmul_one(r.direction.z as int);
}

} // verus!
