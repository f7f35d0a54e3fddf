//! The radiance integrator and the pixel estimator: the recursive path
//! evaluator `ray_color`, and `render`, which averages jittered samples per
//! pixel and emits one RGB triple per pixel in scan order.

use vstd::prelude::*;
use crate::fixed::{
    SCALE, tdiv, fmul, fx_mul, tdiv_i128, lemma_tdiv, lemma_tdiv_bound_by_multiple,
    lemma_mul_abs_bound,
};
use crate::vec::{Vec3, Color3, in_range, norm2_wide};
use crate::vec_util::{unit_vector, unit_of};
use crate::ray::Ray;
use crate::hittable::{Hittable, ray_wf};
use crate::hittable_list::{HittableList, list_hit, list_view};
use crate::material::Material;
use crate::camera::{Camera, cam_wf};
use crate::color_util::write_color;
use crate::math::{RandomSource, random_double};

verus! {

/// The near bound of every radiance query: rejects self-intersections
/// (shadow acne) just above the surface.
pub const SHADOW_EPS: i64 = 1_000_000;

/// The far bound of every radiance query: no limit within `i64`.
pub const T_FAR: i64 = i64::MAX;

/// The background blend parameter at unit direction `d`: half of `d.y + 1`.
pub open spec fn bg_t(d: Vec3) -> int {
    fmul(500_000_000, d.y + SCALE)
}

/// The red channel of the white-to-pale-blue vertical gradient.
pub open spec fn bg_x(d: Vec3) -> int {
    (SCALE - bg_t(d)) + fmul(500_000_000, bg_t(d))
}

/// The green channel of the gradient.
pub open spec fn bg_y(d: Vec3) -> int {
    (SCALE - bg_t(d)) + fmul(700_000_000, bg_t(d))
}

/// The blue channel of the gradient.
pub open spec fn bg_z(d: Vec3) -> int {
    (SCALE - bg_t(d)) + fmul(SCALE as int, bg_t(d))
}

/// A product of two channels in `[0, 1]` is a channel in `[0, 1]`, no larger
/// than either factor.
pub proof fn lemma_fmul_unit(a: int, b: int)
    requires
        0 <= a <= SCALE,
        0 <= b <= SCALE,
    ensures
        0 <= fmul(a, b) <= SCALE,
        fmul(a, b) <= b,
{
    lemma_mul_abs_bound(a, b, 1_000_000_000, 1_000_000_000);
    lemma_tdiv_bound_by_multiple(a * b, SCALE as int, 1_000_000_000);
    lemma_tdiv(a * b, SCALE as int);
    vstd::arithmetic::mul::lemma_mul_nonnegative(a, b);
    vstd::arithmetic::mul::lemma_mul_inequality(a, SCALE as int, b);
    vstd::arithmetic::div_mod::lemma_div_multiples_vanish(b, SCALE as int);
    lemma_tdiv_bound_by_multiple(a * b, SCALE as int, b);
}

/// The radiance along a ray: zero at depth exhaustion; on a hit, the
/// scattered radiance attenuated by the material (or black on absorption);
/// on a miss, the sky gradient.  Every channel lies in `[0, 1]`.
pub fn ray_color(ray: &Ray, world: &HittableList, depth: u32, rng: &mut RandomSource) -> (c:
    Color3)
    requires
        world.surface_wf(),
        ray_wf(*ray),
        norm2_wide(ray.direction) >= 1,
    ensures
        0 <= c.x <= SCALE && 0 <= c.y <= SCALE && 0 <= c.z <= SCALE,
        depth == 0 ==> c == (Vec3 { x: 0i64, y: 0i64, z: 0i64 }),
        depth > 0 && list_hit(list_view(*world), *ray, SHADOW_EPS, T_FAR) is None ==> {
            let d = unit_of(ray.direction);
            c.x == bg_x(d) && c.y == bg_y(d) && c.z == bg_z(d)
        },
    decreases depth,
{
    if depth == 0 {
        return Vec3::new();
    }
    let hit = world.hit(ray, SHADOW_EPS, T_FAR);
    match hit {
        Some(rec) => {
            let scattered = rec.material.scatter(ray, &rec, rng);
            match scattered {
                Some(pair) => {
                    let rest = ray_color(&pair.1, world, depth - 1, rng);
                    proof {
                        lemma_fmul_unit(pair.0.x as int, rest.x as int);
                        lemma_fmul_unit(pair.0.y as int, rest.y as int);
                        lemma_fmul_unit(pair.0.z as int, rest.z as int);
                    }
                    pair.0.mul(&rest)
                },
                None => Vec3::new(),
            }
        },
        None => {
            let d = unit_vector(ray.get_direction());
            proof {
                lemma_mul_abs_bound(500_000_000, d.y + SCALE as int, 500_000_000, 2_000_000_000);
                lemma_tdiv_bound_by_multiple(
                    500_000_000 * (d.y + SCALE as int),
                    SCALE as int,
                    1_000_000_000,
                );
                lemma_tdiv(500_000_000 * (d.y + SCALE as int), SCALE as int);
                vstd::arithmetic::mul::lemma_mul_nonnegative(500_000_000, d.y + SCALE as int);
            }
            let t = fx_mul(500_000_000, d.y + SCALE);
            proof {
                lemma_fmul_unit(500_000_000, t as int);
                lemma_fmul_unit(700_000_000, t as int);
                lemma_fmul_unit(SCALE as int, t as int);
            }
            Vec3 {
                x: (SCALE - t) + fx_mul(500_000_000, t),
                y: (SCALE - t) + fx_mul(700_000_000, t),
                z: (SCALE - t) + fx_mul(SCALE, t),
            }
        },
    }
}

/// Render the scene: for each pixel, top row first and left to right, average
/// `samples_per_pixel` jittered radiance samples, and append the pixel's
/// three bytes.  The result holds exactly `3 * width * height` bytes.
pub fn render(
    camera: &Camera,
    world: &HittableList,
    image_width: u32,
    image_height: u32,
    samples_per_pixel: u32,
    max_depth: u32,
    rng: &mut RandomSource,
) -> (out: Vec<u8>)
    requires
        cam_wf(*camera),
        world.surface_wf(),
        2 <= image_width <= 10_000,
        2 <= image_height <= 10_000,
        1 <= samples_per_pixel <= 100_000,
    ensures
        out@.len() == 3 * (image_width as int) * (image_height as int),
{
    let mut out: Vec<u8> = Vec::new();
    let mut j: u32 = 0;
    while j < image_height
        invariant
            cam_wf(*camera),
            world.surface_wf(),
            2 <= image_width <= 10_000,
            2 <= image_height <= 10_000,
            1 <= samples_per_pixel <= 100_000,
            j <= image_height,
            out@.len() == 3 * (image_width as int) * (j as int),
        decreases image_height - j,
    {
        let mut i: u32 = 0;
        while i < image_width
            invariant
                cam_wf(*camera),
                world.surface_wf(),
                2 <= image_width <= 10_000,
                2 <= image_height <= 10_000,
                1 <= samples_per_pixel <= 100_000,
                j < image_height,
                i <= image_width,
                out@.len() == 3 * (image_width as int) * (j as int) + 3 * (i as int),
            decreases image_width - i,
        {
            let mut pixel = Vec3::new();
            let mut s: u32 = 0;
            while s < samples_per_pixel
                invariant
                    cam_wf(*camera),
                    world.surface_wf(),
                    2 <= image_width <= 10_000,
                    2 <= image_height <= 10_000,
                    1 <= samples_per_pixel <= 100_000,
                    j < image_height,
                    i < image_width,
                    s <= samples_per_pixel,
                    0 <= pixel.x <= (s as int) * (SCALE as int),
                    0 <= pixel.y <= (s as int) * (SCALE as int),
                    0 <= pixel.z <= (s as int) * (SCALE as int),
                decreases samples_per_pixel - s,
            {
                let xi1 = random_double(rng);
                let xi2 = random_double(rng);
                let un: i64 = (i as i64) * 1_000_000_000 + xi1;
                let vn: i64 = ((image_height - 1 - j) as i64) * 1_000_000_000 + xi2;
                proof {
                    lemma_tdiv(un as int, (image_width - 1) as int);
                    lemma_tdiv(vn as int, (image_height - 1) as int);
                    lemma_tdiv_bound_by_multiple(
                        un as int,
                        (image_width - 1) as int,
                        2_000_000_000,
                    );
                    lemma_tdiv_bound_by_multiple(
                        vn as int,
                        (image_height - 1) as int,
                        2_000_000_000,
                    );
                }
                let u = tdiv_i128(un as i128, (image_width - 1) as i128) as i64;
                let v = tdiv_i128(vn as i128, (image_height - 1) as i128) as i64;
                let r = camera.get_ray(u, v);
                let c = ray_color(&r, world, max_depth, rng);
                pixel.add_assign(&c);
                s = s + 1;
            }
            write_color(&mut out, &pixel, samples_per_pixel);
            i = i + 1;
        }
        proof {
            assert(3 * (image_width as int) * ((j + 1) as int) == 3 * (image_width as int) * (
            j as int) + 3 * (image_width as int)) by (nonlinear_arith);
        }
        j = j + 1;
    }
    out
}

} // verus!
