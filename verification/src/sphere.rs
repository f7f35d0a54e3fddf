//! The one concrete surface: a sphere, intersected by solving the
//! fixed-point quadratic, with exact contracts for which ray parameters are
//! accepted and what record comes back.

use vstd::prelude::*;
use std::rc::Rc;
use crate::fixed::{
    SCALE, tdiv, isqrt, is_isqrt, lemma_isqrt, lemma_tdiv, lemma_tdiv_bound_by_multiple,
    lemma_mul_abs_bound, tdiv_i128, isqrt_u128,
};
use crate::vec::{
    Vec3, Point3, COORD_MAX, in_range, norm2_wide, dot_fx, spec_neg, lemma_dot_wide_bound,
    lemma_nonzero_norm2, lemma_norm2_nonneg,
};
use crate::ray::{Ray, at_x, at_y, at_z};
use crate::hittable::{Hittable, HitRecord, ray_wf, rec_wf, wf_normal, faces_ray};
use crate::material::{Material, MaterialKind};

verus! {

#[derive(Clone, Copy, Debug, PartialEq, Eq, Structural)]
pub struct Sphere {
    pub center: Point3,
    pub radius: i64,
    pub material: MaterialKind,
}

/// A sphere the tracer can intersect: in-range center, a radius of at least
/// one fixed-point unit, and a physical material.
pub open spec fn sphere_wf(s: Sphere) -> bool {
    &&& in_range(s.center)
    &&& 1 <= s.radius <= COORD_MAX
    &&& s.material.material_wf()
}

/// `|direction|^2` scaled to `SCALE` (the quadratic's leading coefficient).
pub open spec fn sp_a(ray: Ray) -> int {
    tdiv(norm2_wide(ray.direction), SCALE as int)
}

/// The wide dot of `origin - center` with the direction.
pub open spec fn sp_hb_wide(s: Sphere, ray: Ray) -> int {
    (ray.origin.x - s.center.x) * ray.direction.x + (ray.origin.y - s.center.y) * ray.direction.y
        + (ray.origin.z - s.center.z) * ray.direction.z
}

/// Half the quadratic's middle coefficient, scaled to `SCALE`.
pub open spec fn sp_hb(s: Sphere, ray: Ray) -> int {
    tdiv(sp_hb_wide(s, ray), SCALE as int)
}

/// The wide constant coefficient: `|origin - center|^2 - radius^2`.
pub open spec fn sp_c_wide(s: Sphere, ray: Ray) -> int {
    (ray.origin.x - s.center.x) * (ray.origin.x - s.center.x) + (ray.origin.y - s.center.y) * (
    ray.origin.y - s.center.y) + (ray.origin.z - s.center.z) * (ray.origin.z - s.center.z)
        - s.radius * s.radius
}

/// The constant coefficient, scaled to `SCALE`.
pub open spec fn sp_c(s: Sphere, ray: Ray) -> int {
    tdiv(sp_c_wide(s, ray), SCALE as int)
}

/// The discriminant `hb^2 - a*c` of the half-b quadratic.
pub open spec fn sp_disc(s: Sphere, ray: Ray) -> int {
    sp_hb(s, ray) * sp_hb(s, ray) - sp_a(ray) * sp_c(s, ray)
}

/// The nearer root of the quadratic.
pub open spec fn sp_root1(s: Sphere, ray: Ray) -> int {
    tdiv((-sp_hb(s, ray) - isqrt(sp_disc(s, ray))) * (SCALE as int), sp_a(ray))
}

/// The farther root of the quadratic.
pub open spec fn sp_root2(s: Sphere, ray: Ray) -> int {
    tdiv((-sp_hb(s, ray) + isqrt(sp_disc(s, ray))) * (SCALE as int), sp_a(ray))
}

/// Which ray parameter the intersection accepts: a degenerate direction or a
/// negative discriminant give none; otherwise the nearer root if it lies
/// strictly inside `(t_min, t_max)`, else the farther root if it does, else
/// none.
pub open spec fn sp_chosen_root(s: Sphere, ray: Ray, t_min: i64, t_max: i64) -> Option<int> {
    if sp_a(ray) < 1 {
        None
    } else if sp_disc(s, ray) < 0 {
        None
    } else if t_min < sp_root1(s, ray) < t_max {
        Some(sp_root1(s, ray))
    } else if t_min < sp_root2(s, ray) < t_max {
        Some(sp_root2(s, ray))
    } else {
        None
    }
}

/// One component of the geometric outward normal at parameter `t`:
/// `(P(t) - center) / radius`.
pub open spec fn sp_outward(c: int, p: int, radius: int) -> int {
    tdiv((p - c) * (SCALE as int), radius)
}

/// What `Sphere::hit` returns.  After a root is accepted, the hit point must
/// stay in coordinate range and the outward normal must be a well-formed
/// (bounded, nonzero) vector; the rare fixed-point draws that violate that
/// are reported as misses.  The record holds the point, the oriented normal,
/// the parameter and the sphere's material.
pub open spec fn sp_hit(s: Sphere, ray: Ray, t_min: i64, t_max: i64) -> Option<HitRecord> {
    match sp_chosen_root(s, ray, t_min, t_max) {
        None => None,
        Some(t) => {
            let px = at_x(ray, t);
            let py = at_y(ray, t);
            let pz = at_z(ray, t);
            if !(-COORD_MAX <= px <= COORD_MAX && -COORD_MAX <= py <= COORD_MAX && -COORD_MAX <= pz
                <= COORD_MAX) {
                None
            } else {
                let nx = sp_outward(s.center.x as int, px, s.radius as int);
                let ny = sp_outward(s.center.y as int, py, s.radius as int);
                let nz = sp_outward(s.center.z as int, pz, s.radius as int);
                if !(-2 * SCALE <= nx <= 2 * SCALE && -2 * SCALE <= ny <= 2 * SCALE && -2 * SCALE
                    <= nz <= 2 * SCALE) {
                    None
                } else if nx == 0 && ny == 0 && nz == 0 {
                    None
                } else {
                    let outward = Vec3 { x: nx as i64, y: ny as i64, z: nz as i64 };
                    let front = dot_fx(ray.direction, outward) < 0;
                    Some(
                        HitRecord {
                            p: Vec3 { x: px as i64, y: py as i64, z: pz as i64 },
                            normal: if front {
                                outward
                            } else {
                                spec_neg(outward)
                            },
                            t: t as i64,
                            front_face: front,
                            material: s.material,
                        },
                    )
                }
            }
        },
    }
}

impl Sphere {
    /// A degenerate placeholder sphere (zero radius, absorbing material);
    /// not intersectable until given a real radius.
    pub fn new() -> (s: Sphere)
        ensures
            s.center == (Vec3 { x: 0i64, y: 0i64, z: 0i64 }),
            s.radius == 0,
            s.material == MaterialKind::Null,
    {
        Sphere { center: Vec3::new(), radius: 0, material: MaterialKind::Null }
    }

    /// A sphere from its center, radius and material.
    pub fn from(center: Point3, radius: i64, material: MaterialKind) -> (s: Sphere)
        ensures
            s.center == center && s.radius == radius && s.material == material,
    {
        Sphere { center, radius, material }
    }

    /// A shared sphere from its center, radius and material.
    pub fn rc_from(center: Point3, radius: i64, material: MaterialKind) -> (s: Rc<Sphere>)
        ensures
            s.center == center && s.radius == radius && s.material == material,
    {
        Rc::new(Sphere { center, radius, material })
    }
}

impl Hittable for Sphere {
    open spec fn hit_spec(&self, ray: Ray, t_min: i64, t_max: i64) -> Option<HitRecord> {
        sp_hit(*self, ray, t_min, t_max)
    }

    open spec fn surface_wf(&self) -> bool {
        sphere_wf(*self)
    }

    fn hit(&self, ray: &Ray, t_min: i64, t_max: i64) -> (r: Option<HitRecord>) {
        proof {
            lemma_dot_wide_bound(ray.direction, ray.direction);
            lemma_norm2_nonneg(ray.direction);
            lemma_tdiv_bound_by_multiple(
                norm2_wide(ray.direction),
                SCALE as int,
                4_000_000_000_000_000,
            );
        }
        let dx: i128 = ray.direction.x as i128;
        let dy: i128 = ray.direction.y as i128;
        let dz: i128 = ray.direction.z as i128;
        let a2: i128 = dx * dx + dy * dy + dz * dz;
        let a: i128 = tdiv_i128(a2, 1_000_000_000);
        if a < 1 {
            return None;
        }
        let ocx: i128 = (ray.origin.x as i128) - (self.center.x as i128);
        let ocy: i128 = (ray.origin.y as i128) - (self.center.y as i128);
        let ocz: i128 = (ray.origin.z as i128) - (self.center.z as i128);
        proof {
            lemma_mul_abs_bound(ocx as int, dx as int, 2_199_023_255_552, 1_099_511_627_776);
            lemma_mul_abs_bound(ocy as int, dy as int, 2_199_023_255_552, 1_099_511_627_776);
            lemma_mul_abs_bound(ocz as int, dz as int, 2_199_023_255_552, 1_099_511_627_776);
            lemma_mul_abs_bound(ocx as int, ocx as int, 2_199_023_255_552, 2_199_023_255_552);
            lemma_mul_abs_bound(ocy as int, ocy as int, 2_199_023_255_552, 2_199_023_255_552);
            lemma_mul_abs_bound(ocz as int, ocz as int, 2_199_023_255_552, 2_199_023_255_552);
            lemma_mul_abs_bound(
                self.radius as int,
                self.radius as int,
                1_099_511_627_776,
                1_099_511_627_776,
            );
        }
        let hb2: i128 = ocx * dx + ocy * dy + ocz * dz;
        let c2: i128 = ocx * ocx + ocy * ocy + ocz * ocz - (self.radius as i128) * (
        self.radius as i128);
        let hb: i128 = tdiv_i128(hb2, 1_000_000_000);
        let cc: i128 = tdiv_i128(c2, 1_000_000_000);
        proof {
            lemma_tdiv_bound_by_multiple(hb2 as int, SCALE as int, 8_000_000_000_000_000);
            lemma_tdiv_bound_by_multiple(c2 as int, SCALE as int, 16_000_000_000_000_000);
            lemma_mul_abs_bound(hb as int, hb as int, 8_000_000_000_000_000, 8_000_000_000_000_000);
            lemma_mul_abs_bound(a as int, cc as int, 4_000_000_000_000_000, 16_000_000_000_000_000);
        }
        let disc: i128 = hb * hb - a * cc;
        if disc < 0 {
            return None;
        }
        let sdu: u128 = isqrt_u128(disc as u128);
        proof {
            assert(sdu as int <= 120_000_000_000_000_000int) by (nonlinear_arith)
                requires
                    0 <= sdu as int,
                    (sdu as int) * (sdu as int) <= disc as int,
                    disc as int <= 128_000_000_000_000_000_000_000_000_000_000int,
            ;
        }
        let sd: i128 = sdu as i128;
        let num1: i128 = -hb - sd;
        let num2: i128 = -hb + sd;
        let r1: i128 = tdiv_i128(num1 * 1_000_000_000, a);
        proof {
            lemma_tdiv(num1 * 1_000_000_000, a as int);
        }
        let root: i128 = if (t_min as i128) < r1 && r1 < (t_max as i128) {
            r1
        } else {
            let r2: i128 = tdiv_i128(num2 * 1_000_000_000, a);
            proof {
                lemma_tdiv(num2 * 1_000_000_000, a as int);
            }
            if (t_min as i128) < r2 && r2 < (t_max as i128) {
                r2
            } else {
                return None;
            }
        };
        let t = root as i64;
        proof {
            assert(sp_chosen_root(*self, *ray, t_min, t_max) == Some(root as int));
            lemma_mul_abs_bound(dx as int, root as int, 1_099_511_627_776, 0x8000_0000_0000_0000);
            lemma_mul_abs_bound(dy as int, root as int, 1_099_511_627_776, 0x8000_0000_0000_0000);
            lemma_mul_abs_bound(dz as int, root as int, 1_099_511_627_776, 0x8000_0000_0000_0000);
            lemma_tdiv((dx as int) * (root as int), SCALE as int);
            lemma_tdiv((dy as int) * (root as int), SCALE as int);
            lemma_tdiv((dz as int) * (root as int), SCALE as int);
        }
        let px: i128 = (ray.origin.x as i128) + tdiv_i128(dx * root, 1_000_000_000);
        let py: i128 = (ray.origin.y as i128) + tdiv_i128(dy * root, 1_000_000_000);
        let pz: i128 = (ray.origin.z as i128) + tdiv_i128(dz * root, 1_000_000_000);
        if !(-COORD_MAX as i128 <= px && px <= COORD_MAX as i128 && -COORD_MAX as i128 <= py && py
            <= COORD_MAX as i128 && -COORD_MAX as i128 <= pz && pz <= COORD_MAX as i128) {
            return None;
        }
        let nx: i128 = tdiv_i128((px - self.center.x as i128) * 1_000_000_000, self.radius as i128);
        let ny: i128 = tdiv_i128((py - self.center.y as i128) * 1_000_000_000, self.radius as i128);
        let nz: i128 = tdiv_i128((pz - self.center.z as i128) * 1_000_000_000, self.radius as i128);
        if !(-2 * (SCALE as i128) <= nx && nx <= 2 * (SCALE as i128) && -2 * (SCALE as i128) <= ny
            && ny <= 2 * (SCALE as i128) && -2 * (SCALE as i128) <= nz && nz <= 2 * (SCALE as i128)) {
            return None;
        }
        if nx == 0 && ny == 0 && nz == 0 {
            return None;
        }
        let outward = Vec3 { x: nx as i64, y: ny as i64, z: nz as i64 };
        let p = Vec3 { x: px as i64, y: py as i64, z: pz as i64 };
        let mut rec = HitRecord::new();
        rec.t = t;
        rec.p = p;
        rec.set_face_normal(ray, &outward);
        rec.material = self.material;
        proof {
            lemma_nonzero_norm2(outward);
            if !rec.front_face {
                lemma_nonzero_norm2(rec.normal);
            }
            assert(Some(rec) == sp_hit(*self, *ray, t_min, t_max));
        }
        Some(rec)
    }
}

/// Assembles a sphere step by step; each step returns the builder so calls
/// chain.
pub struct SphereBuilder {
    pub sphere: Sphere,
}

impl SphereBuilder {
    /// A builder holding the placeholder sphere.
    pub fn new() -> (b: SphereBuilder)
        ensures
            b.sphere.radius == 0,
            b.sphere.material == MaterialKind::Null,
            b.sphere.center == (Vec3 { x: 0i64, y: 0i64, z: 0i64 }),
    {
        SphereBuilder { sphere: Sphere::new() }
    }

    /// Set the center.
    pub fn set_position(self, center: Point3) -> (b: SphereBuilder)
        ensures
            b.sphere.center == center,
            b.sphere.radius == self.sphere.radius,
            b.sphere.material == self.sphere.material,
    {
        SphereBuilder { sphere: Sphere { center, ..self.sphere } }
    }

    /// Set the radius.
    pub fn set_radius(self, radius: i64) -> (b: SphereBuilder)
        ensures
            b.sphere.radius == radius,
            b.sphere.center == self.sphere.center,
            b.sphere.material == self.sphere.material,
    {
        SphereBuilder { sphere: Sphere { radius, ..self.sphere } }
    }

    /// Set the material.
    pub fn set_material(self, material: MaterialKind) -> (b: SphereBuilder)
        ensures
            b.sphere.material == material,
            b.sphere.center == self.sphere.center,
            b.sphere.radius == self.sphere.radius,
    {
        SphereBuilder { sphere: Sphere { material, ..self.sphere } }
    }

    /// The assembled sphere, shared.
    pub fn to_rc(&self) -> (s: Rc<Sphere>)
        ensures
            *s == self.sphere,
    {
        Rc::new(self.sphere.clone())
    }
}

} // verus!
