//! Materials: given an incoming ray and a hit, decide whether light
//! scatters, and if so give the scattered ray and the attenuation color.

use vstd::prelude::*;
use crate::fixed::SCALE;
use crate::vec::{
    Vec3, Color3, in_range, norm2_wide, dot_fx, spec_add, spec_near_zero, is_unit_sample,
    lemma_nonzero_norm2, lemma_dot_fx_zero_left,
};
use crate::vec_util::{unit_of, reflect_of, unit_vector, reflect, dot, small_vec};
use crate::ray::Ray;
use crate::hittable::{HitRecord, rec_wf, ray_wf, wf_normal};
use crate::math::RandomSource;

verus! {

/// A color with every channel in `[0, 1]`: a physical albedo.
pub open spec fn wf_albedo(c: Color3) -> bool {
    &&& 0 <= c.x <= SCALE
    &&& 0 <= c.y <= SCALE
    &&& 0 <= c.z <= SCALE
}

/// Whatever scatters: the attenuation is a physical albedo and the scattered
/// ray starts at the hit point with an in-range, nonzero direction.
pub open spec fn scatter_sound(rec: HitRecord, out: Option<(Color3, Ray)>) -> bool {
    match out {
        Some(pair) => {
            &&& wf_albedo(pair.0)
            &&& pair.1.origin == rec.p
            &&& ray_wf(pair.1)
            &&& norm2_wide(pair.1.direction) >= 1
        },
        None => true,
    }
}

/// The capability of scattering light.  `scatter_rel` fixes, per material,
/// which outcomes a call may produce; the trait itself promises that any
/// scattered ray is usable by the integrator.
pub trait Material {
    /// Which outcomes `scatter` may produce for this query.
    spec fn scatter_rel(&self, r_in: Ray, rec: HitRecord, out: Option<(Color3, Ray)>) -> bool;

    /// The material's own validity.
    spec fn material_wf(&self) -> bool;

    fn scatter(&self, r_in: &Ray, rec: &HitRecord, rng: &mut RandomSource) -> (out: Option<
        (Color3, Ray),
    >)
        requires
            self.material_wf(),
            ray_wf(*r_in),
            norm2_wide(r_in.direction) >= 1,
            rec_wf(*rec),
        ensures
            self.scatter_rel(*r_in, *rec, out),
            scatter_sound(*rec, out),
    ;
}

/// The absorbing placeholder: never scatters.
#[derive(Clone, Copy, Debug, PartialEq, Eq, Structural)]
pub struct NullMaterial {}

impl Material for NullMaterial {
    open spec fn scatter_rel(&self, r_in: Ray, rec: HitRecord, out: Option<(Color3, Ray)>) -> bool {
        out is None
    }

    open spec fn material_wf(&self) -> bool {
        true
    }

    fn scatter(&self, r_in: &Ray, rec: &HitRecord, rng: &mut RandomSource) -> (out: Option<
        (Color3, Ray),
    >) {
        None
    }
}

/// The diffuse direction produced from a normal and a unit sample: their sum,
/// or the bare normal when the sum is degenerate.
pub open spec fn lambertian_dir(n: Vec3, u: Vec3, d: Vec3) -> bool {
    if spec_near_zero(spec_add(n, u)) {
        d == n
    } else {
        d == spec_add(n, u)
    }
}

/// Diffuse reflection: always scatters, toward the normal plus a random unit
/// vector, attenuated by the albedo.
#[derive(Clone, Copy, Debug, PartialEq, Eq, Structural)]
pub struct Lambertian {
    pub albedo: Color3,
}

impl Material for Lambertian {
    open spec fn scatter_rel(&self, r_in: Ray, rec: HitRecord, out: Option<(Color3, Ray)>) -> bool {
        match out {
            Some(pair) => {
                &&& pair.0 == self.albedo
                &&& pair.1.origin == rec.p
                &&& exists|u: Vec3|
                    #[trigger] is_unit_sample(u) && lambertian_dir(rec.normal, u, pair.1.direction)
            },
            None => false,
        }
    }

    open spec fn material_wf(&self) -> bool {
        wf_albedo(self.albedo)
    }

    fn scatter(&self, r_in: &Ray, rec: &HitRecord, rng: &mut RandomSource) -> (out: Option<
        (Color3, Ray),
    >) {
        let u = Vec3::random_unit_vector(rng);
        let sum = rec.normal.add(&u);
        let dir = if sum.near_zero() {
            rec.normal
        } else {
            sum
        };
        proof {
            assert(sum == spec_add(rec.normal, u));
            if !spec_near_zero(sum) {
                lemma_nonzero_norm2(sum);
            }
            assert(is_unit_sample(u) && lambertian_dir(rec.normal, u, dir));
        }
        Some((self.albedo, Ray::from(rec.p, dir)))
    }
}

/// Ideal specular reflection: reflects the normalized incoming direction
/// about the normal, and absorbs grazing reflections that would leave along
/// the surface or into it.
#[derive(Clone, Copy, Debug, PartialEq, Eq, Structural)]
pub struct Metal {
    pub albedo: Color3,
}

impl Material for Metal {
    open spec fn scatter_rel(&self, r_in: Ray, rec: HitRecord, out: Option<(Color3, Ray)>) -> bool {
        let refl = reflect_of(unit_of(r_in.direction), rec.normal);
        if dot_fx(refl, rec.normal) > 0 {
            out == Some((self.albedo, Ray { origin: rec.p, direction: refl }))
        } else {
            out is None
        }
    }

    open spec fn material_wf(&self) -> bool {
        wf_albedo(self.albedo)
    }

    fn scatter(&self, r_in: &Ray, rec: &HitRecord, rng: &mut RandomSource) -> (out: Option<
        (Color3, Ray),
    >) {
        let unit_in = unit_vector(r_in.get_direction());
        let refl = reflect(&unit_in, &rec.normal);
        let d = dot(&refl, &rec.normal);
        if d > 0 {
            proof {
                if refl.x == 0 && refl.y == 0 && refl.z == 0 {
                    lemma_dot_fx_zero_left(refl, rec.normal);
                }
                lemma_nonzero_norm2(refl);
            }
            Some((self.albedo, Ray::from(rec.p, refl)))
        } else {
            None
        }
    }
}

/// One material of the scene: the tag the tracer stores and dispatches on.
#[derive(Clone, Copy, Debug, PartialEq, Eq, Structural)]
pub enum MaterialKind {
    Null,
    Lambert(Lambertian),
    Metallic(Metal),
}

impl Material for MaterialKind {
    open spec fn scatter_rel(&self, r_in: Ray, rec: HitRecord, out: Option<(Color3, Ray)>) -> bool {
        match *self {
            MaterialKind::Null => out is None,
            MaterialKind::Lambert(l) => l.scatter_rel(r_in, rec, out),
            MaterialKind::Metallic(m) => m.scatter_rel(r_in, rec, out),
        }
    }

    open spec fn material_wf(&self) -> bool {
        match *self {
            MaterialKind::Null => true,
            MaterialKind::Lambert(l) => l.material_wf(),
            MaterialKind::Metallic(m) => m.material_wf(),
        }
    }

    fn scatter(&self, r_in: &Ray, rec: &HitRecord, rng: &mut RandomSource) -> (out: Option<
        (Color3, Ray),
    >) {
        match self {
            MaterialKind::Null => None,
            MaterialKind::Lambert(l) => l.scatter(r_in, rec, rng),
            MaterialKind::Metallic(m) => m.scatter(r_in, rec, rng),
        }
    }
}

} // verus!
