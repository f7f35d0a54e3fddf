//! An ordered collection of surfaces; a hit query returns the closest hit
//! over the interval, found by shrinking the far bound as hits arrive.

use vstd::prelude::*;
use std::rc::Rc;
use crate::sphere::{Sphere, sphere_wf, sp_hit};
use crate::ray::Ray;
use crate::hittable::{Hittable, HitRecord, ray_wf, rec_wf, faces_ray};
use crate::material::Material;

verus! {

pub struct HittableList {
    pub objects: Vec<Rc<Sphere>>,
}

/// The running fold of the closest-hit search: surfaces before `i` are done
/// and summarized by the still-open far bound `closest` and the best record
/// so far.
pub open spec fn list_hit_from(
    objs: Seq<Sphere>,
    i: int,
    ray: Ray,
    t_min: i64,
    closest: i64,
    best: Option<HitRecord>,
) -> Option<HitRecord>
    decreases objs.len() - i,
{
    if i < 0 || i >= objs.len() {
        best
    } else {
        match sp_hit(objs[i], ray, t_min, closest) {
            Some(rec) => list_hit_from(objs, i + 1, ray, t_min, rec.t, Some(rec)),
            None => list_hit_from(objs, i + 1, ray, t_min, closest, best),
        }
    }
}

/// What `HittableList::hit` returns: the fold over all surfaces in order.
pub open spec fn list_hit(objs: Seq<Sphere>, ray: Ray, t_min: i64, t_max: i64) -> Option<
    HitRecord,
> {
    list_hit_from(objs, 0, ray, t_min, t_max, None)
}

/// The spheres a list holds, as a sequence of plain values.
pub open spec fn list_view(l: HittableList) -> Seq<Sphere> {
    Seq::new(l.objects@.len(), |i: int| *l.objects@[i])
}

impl HittableList {
    /// An empty collection.
    pub fn new() -> (l: HittableList)
        ensures
            list_view(l).len() == 0,
    {
        HittableList { objects: Vec::new() }
    }

    /// Append a surface; the surfaces before it keep their places.
    pub fn add(&mut self, object: Rc<Sphere>)
        requires
            sphere_wf(*object),
        ensures
            list_view(*final(self)) == list_view(*old(self)).push(*object),
    {
        self.objects.push(object);
        proof {
            assert(list_view(*self) =~= list_view(*old(self)).push(*object));
        }
    }

    /// How many surfaces the collection holds.
    pub fn len(&self) -> (n: usize)
        ensures
            n == list_view(*self).len(),
    {
        self.objects.len()
    }
}

impl Hittable for HittableList {
    open spec fn hit_spec(&self, ray: Ray, t_min: i64, t_max: i64) -> Option<HitRecord> {
        list_hit(list_view(*self), ray, t_min, t_max)
    }

    open spec fn surface_wf(&self) -> bool {
        forall|i: int| 0 <= i < list_view(*self).len() ==> sphere_wf(#[trigger] list_view(*self)[i])
    }

    fn hit(&self, ray: &Ray, t_min: i64, t_max: i64) -> (r: Option<HitRecord>) {
        let ghost objs = list_view(*self);
        let mut best: Option<HitRecord> = None;
        let mut closest: i64 = t_max;
        let n = self.objects.len();
        let mut idx: usize = 0;
        while idx < n
            invariant
                n == objs.len(),
                0 <= idx <= n,
                objs == list_view(*self),
                forall|i: int| 0 <= i < objs.len() ==> sphere_wf(#[trigger] objs[i]),
                ray_wf(*ray),
                0 <= t_min <= closest <= t_max,
                list_hit(objs, *ray, t_min, t_max) == list_hit_from(
                    objs,
                    idx as int,
                    *ray,
                    t_min,
                    closest,
                    best,
                ),
                match best {
                    Some(rec) => rec_wf(rec) && rec.material.material_wf() && t_min < rec.t < t_max
                        && faces_ray(*ray, rec) && rec.t == closest,
                    None => closest == t_max,
                },
            decreases n - idx,
        {
            let sphere: &Sphere = &self.objects[idx];
            let res = sphere.hit(ray, t_min, closest);
            match res {
                Some(rec) => {
                    closest = rec.t;
                    best = Some(rec);
                },
                None => {},
            }
            idx = idx + 1;
        }
        best
    }
}

} // verus!
