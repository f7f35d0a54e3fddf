//! The camera: maps normalized screen coordinates in `[0, 1]` to primary
//! rays through a viewport two units tall at focal length one.

use vstd::prelude::*;
use crate::fixed::{SCALE, tdiv, fmul, fdiv, fx_mul, fx_div, lemma_mul_abs_bound,
    lemma_tdiv_bound_by_multiple};
use crate::vec::{Vec3, Point3, in_range, norm2_wide};
use crate::ray::Ray;
use crate::hittable::ray_wf;

verus! {

#[derive(Clone, Copy, Debug, PartialEq, Eq, Structural)]
pub struct Camera {
    pub origin: Point3,
    pub lower_left_corner: Point3,
    pub horizontal: Vec3,
    pub vertical: Vec3,
}

/// The viewport width for an aspect ratio: `aspect_ratio * 2.0`.
pub open spec fn cam_vw(aspect_ratio: int) -> int {
    fmul(aspect_ratio, 2 * SCALE)
}

/// A camera as the constructor builds it: origin at zero, an axis-aligned
/// viewport two units tall, the lower-left corner one focal length out.
pub open spec fn cam_wf(c: Camera) -> bool {
    &&& c.origin == (Vec3 { x: 0i64, y: 0i64, z: 0i64 })
    &&& c.horizontal.y == 0 && c.horizontal.z == 0
    &&& 0 <= c.horizontal.x <= 16 * SCALE
    &&& c.vertical == (Vec3 { x: 0i64, y: 2_000_000_000i64, z: 0i64 })
    &&& c.lower_left_corner.y == -SCALE && c.lower_left_corner.z == -SCALE
    &&& -8 * SCALE <= c.lower_left_corner.x <= 0
}

impl Camera {
    /// A camera for the given aspect ratio (fixed point, `SCALE` = 1.0).
    pub fn new(aspect_ratio: i64) -> (c: Camera)
        requires
            0 < aspect_ratio <= 8 * SCALE,
        ensures
            cam_wf(c),
            c.horizontal.x == cam_vw(aspect_ratio as int),
            c.lower_left_corner.x == -fdiv(cam_vw(aspect_ratio as int), 2 * SCALE as int),
    {
        proof {
            lemma_mul_abs_bound(aspect_ratio as int, 2 * SCALE as int, 8_000_000_000, 2_000_000_000);
            lemma_tdiv_bound_by_multiple(
                aspect_ratio * (2 * SCALE as int),
                SCALE as int,
                16_000_000_000,
            );
            crate::fixed::lemma_tdiv(aspect_ratio * (2 * SCALE as int), SCALE as int);
            vstd::arithmetic::mul::lemma_mul_strictly_positive(aspect_ratio as int, 2 * SCALE as int);
        }
        let viewport_width = fx_mul(aspect_ratio, 2 * SCALE);
        proof {
            crate::fixed::lemma_tdiv((viewport_width as int) * (SCALE as int), 2 * SCALE as int);
            lemma_tdiv_bound_by_multiple(
                (viewport_width as int) * (SCALE as int),
                2 * SCALE as int,
                8_000_000_000,
            );
        }
        let half_width = fx_div(viewport_width, 2 * SCALE);
        Camera {
            origin: Vec3::new(),
            lower_left_corner: Vec3 { x: -half_width, y: -SCALE, z: -SCALE },
            horizontal: Vec3 { x: viewport_width, y: 0, z: 0 },
            vertical: Vec3 { x: 0, y: 2 * SCALE, z: 0 },
        }
    }

    /// The primary ray through screen coordinates `(u, v)`: from the origin
    /// toward `lower_left_corner + u * horizontal + v * vertical - origin`.
    pub fn get_ray(&self, u: i64, v: i64) -> (r: Ray)
        requires
            cam_wf(*self),
            0 <= u <= 2 * SCALE,
            0 <= v <= 2 * SCALE,
        ensures
            r.origin == self.origin,
            r.direction.x == self.lower_left_corner.x + fmul(self.horizontal.x as int, u as int)
                + fmul(self.vertical.x as int, v as int) - self.origin.x,
            r.direction.y == self.lower_left_corner.y + fmul(self.horizontal.y as int, u as int)
                + fmul(self.vertical.y as int, v as int) - self.origin.y,
            r.direction.z == self.lower_left_corner.z + fmul(self.horizontal.z as int, u as int)
                + fmul(self.vertical.z as int, v as int) - self.origin.z,
            ray_wf(r),
            norm2_wide(r.direction) >= 1,
            r.direction.z == -SCALE,
    {
        proof {
            lemma_fmul_box(self.horizontal.x as int, u as int);
            lemma_fmul_box(self.horizontal.y as int, u as int);
            lemma_fmul_box(self.horizontal.z as int, u as int);
            lemma_fmul_box(self.vertical.x as int, v as int);
            lemma_fmul_box(self.vertical.y as int, v as int);
            lemma_fmul_box(self.vertical.z as int, v as int);
        }
        let hu = self.horizontal.scale(u);
        let vv = self.vertical.scale(v);
        let dir = Vec3 {
            x: self.lower_left_corner.x + hu.x + vv.x - self.origin.x,
            y: self.lower_left_corner.y + hu.y + vv.y - self.origin.y,
            z: self.lower_left_corner.z + hu.z + vv.z - self.origin.z,
        };
        proof {
            vstd::arithmetic::div_mod::lemma_div_of0(SCALE as int);
            assert(norm2_wide(dir) >= 1) by (nonlinear_arith)
                requires
                    dir.z == -1_000_000_000int,
            ;
        }
        Ray { origin: self.origin, direction: dir }
    }
}

/// A product of a viewport extent with a screen coordinate stays within 32
/// units.
proof fn lemma_fmul_box(h: int, u: int)
    requires
        -16 * (SCALE as int) <= h <= 16 * (SCALE as int),
        0 <= u <= 2 * (SCALE as int),
    ensures
        -32 * (SCALE as int) <= fmul(h, u) <= 32 * (SCALE as int),
{
    lemma_mul_abs_bound(h, u, 16_000_000_000, 2_000_000_000);
    lemma_tdiv_bound_by_multiple(h * u, SCALE as int, 32_000_000_000);
}

} // verus!
