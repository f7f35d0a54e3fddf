//! The record of a successful intersection and the capability of being
//! ray-tested over an interval.

use vstd::prelude::*;
use crate::fixed::SCALE;
use crate::vec::{Vec3, Point3, in_range, norm2_wide, dot_fx, lemma_dot_fx_neg};
use crate::ray::Ray;
use crate::material::{MaterialKind, Material};

verus! {

#[derive(Clone, Copy, Debug, PartialEq, Eq, Structural)]
pub struct HitRecord {
    pub p: Point3,
    pub normal: Vec3,
    pub t: i64,
    pub front_face: bool,
    pub material: MaterialKind,
}

/// A surface normal as intersections produce it: each component within two
/// units, and not the zero vector.
pub open spec fn wf_normal(n: Vec3) -> bool {
    &&& -2 * SCALE <= n.x <= 2 * SCALE
    &&& -2 * SCALE <= n.y <= 2 * SCALE
    &&& -2 * SCALE <= n.z <= 2 * SCALE
    &&& 1 <= norm2_wide(n)
}

/// Both ends of a ray within coordinate range.
pub open spec fn ray_wf(r: Ray) -> bool {
    &&& in_range(r.origin)
    &&& in_range(r.direction)
}

/// A hit record as intersections produce it: an in-range point and a
/// well-formed normal.
pub open spec fn rec_wf(rec: HitRecord) -> bool {
    &&& in_range(rec.p)
    &&& wf_normal(rec.normal)
}

/// The normal opposes the incoming ray: never a positive dot product, and a
/// strictly negative one on a front face.
pub open spec fn faces_ray(ray: Ray, rec: HitRecord) -> bool {
    &&& dot_fx(ray.direction, rec.normal) <= 0
    &&& rec.front_face ==> dot_fx(ray.direction, rec.normal) < 0
}

impl HitRecord {
    /// A placeholder record: everything zero, absorbing material.
    pub fn new() -> (rec: HitRecord)
        ensures
            rec.p == (Vec3 { x: 0i64, y: 0i64, z: 0i64 }),
            rec.normal == (Vec3 { x: 0i64, y: 0i64, z: 0i64 }),
            rec.t == 0 && rec.front_face == false,
            rec.material == MaterialKind::Null,
    {
        HitRecord {
            p: Vec3::new(),
            normal: Vec3::new(),
            t: 0,
            front_face: false,
            material: MaterialKind::Null,
        }
    }

    /// Store the face flag and the oriented normal: `front_face` iff the ray
    /// runs against the geometric outward normal, and the stored normal is
    /// the outward normal flipped onto the ray's side.
    pub fn set_face_normal(&mut self, ray: &Ray, outward_normal: &Vec3)
        requires
            in_range(ray.direction),
            in_range(*outward_normal),
            outward_normal.x > i64::MIN,
            outward_normal.y > i64::MIN,
            outward_normal.z > i64::MIN,
        ensures
            final(self).front_face == (dot_fx(ray.direction, *outward_normal) < 0),
            final(self).front_face ==> final(self).normal == *outward_normal,
            !final(self).front_face ==> final(self).normal
                == (Vec3 { x: (-outward_normal.x) as i64, y: (-outward_normal.y) as i64, z: (-outward_normal.z) as i64 }),
            dot_fx(ray.direction, final(self).normal) <= 0,
            final(self).front_face ==> dot_fx(ray.direction, final(self).normal) < 0,
            final(self).p == old(self).p,
            final(self).t == old(self).t,
            final(self).material == old(self).material,
    {
        let d = crate::vec_util::dot(ray.get_direction(), outward_normal);
        self.front_face = d < 0;
        if self.front_face {
            self.normal = *outward_normal;
        } else {
            self.normal = outward_normal.neg();
            proof {
                lemma_dot_fx_neg(ray.direction, *outward_normal, self.normal);
            }
        }
    }
}

/// Anything that can be ray-tested over an open parameter interval.  Each
/// implementation fixes its result completely with `hit_spec`; the trait
/// itself promises that any hit lies strictly inside the interval, carries a
/// well-formed record, and orients its normal against the ray.
pub trait Hittable {
    /// What `hit` returns, as a function of the query.
    spec fn hit_spec(&self, ray: Ray, t_min: i64, t_max: i64) -> Option<HitRecord>;

    /// The surface's own validity (in-range geometry).
    spec fn surface_wf(&self) -> bool;

    fn hit(&self, ray: &Ray, t_min: i64, t_max: i64) -> (r: Option<HitRecord>)
        requires
            self.surface_wf(),
            ray_wf(*ray),
            0 <= t_min <= t_max,
        ensures
            r == self.hit_spec(*ray, t_min, t_max),
            match r {
                Some(rec) => rec_wf(rec) && rec.material.material_wf() && t_min < rec.t < t_max
                    && faces_ray(*ray, rec),
                None => true,
            },
    ;
}

} // verus!
