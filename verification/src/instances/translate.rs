//! The translate decorator: the ray is shifted into the child's frame, the
//! hit point shifted back.

use vstd::prelude::*;
use crate::vec3::{Vector3, v_add_spec, v_sub_spec};
use crate::ray::{Ray, Interval};
use crate::objects::global::{HitRecord, Hittable, hittable_hit_spec};

verus! {

pub struct Translate {
    pub object: Box<Hittable>,
    pub offset: Vector3,
}

pub open spec fn translate_hit_spec(t: Translate, ray: Ray, ray_t: Interval) -> Option<HitRecord>
    decreases t,
{
    match v_sub_spec(ray.origin, t.offset) {
        None => None,
        Some(o) => match hittable_hit_spec(
            *t.object,
            Ray { origin: o, direction: ray.direction },
            ray_t,
        ) {
            None => None,
            Some(rec) => match v_add_spec(rec.point, t.offset) {
                None => None,
                Some(p) => Some(
                    HitRecord {
                        point: p,
                        normal: rec.normal,
                        mat: rec.mat,
                        t: rec.t,
                        front_face: rec.front_face,
                        u: rec.u,
                        v: rec.v,
                    },
                ),
            },
        },
    }
}

/// A translate's answer is exactly the child's answer for the ray whose
/// origin is shifted by the negated offset, with the hit point shifted back
/// by the offset and everything else unchanged.
pub proof fn lemma_translate_shifts(t: Translate, ray: Ray, ray_t: Interval, o: Vector3)
    requires
        v_sub_spec(ray.origin, t.offset) == Some(o),
    ensures
        translate_hit_spec(t, ray, ray_t) == match hittable_hit_spec(
            *t.object,
            Ray { origin: o, direction: ray.direction },
            ray_t,
        ) {
            None => None,
            Some(rec) => match v_add_spec(rec.point, t.offset) {
                None => None,
                Some(p) => Some(
                    HitRecord {
                        point: p,
                        normal: rec.normal,
                        mat: rec.mat,
                        t: rec.t,
                        front_face: rec.front_face,
                        u: rec.u,
                        v: rec.v,
                    },
                ),
            },
        },
{
}

impl Translate {
    pub fn new(object: Box<Hittable>, offset: Vector3) -> (r: Translate)
        ensures
            r.object == object,
            r.offset == offset,
    {
        Translate { object, offset }
    }

    pub fn hit(&self, ray: Ray, ray_t: Interval) -> (r: Option<HitRecord>)
        ensures
            r == translate_hit_spec(*self, ray, ray_t),
        decreases *self,
    {
        let moved: Vector3 = match ray.origin.sub(self.offset) {
            Some(o) => o,
            None => { return None; },
        };
        let offset_ray = Ray { origin: moved, direction: ray.direction };
        match self.object.hit(offset_ray, ray_t) {
            None => None,
            Some(rec) => {
                match rec.point.add(self.offset) {
                    None => None,
                    Some(p) => Some(
                        HitRecord {
                            point: p,
                            normal: rec.normal,
                            mat: rec.mat,
                            t: rec.t,
                            front_face: rec.front_face,
                            u: rec.u,
                            v: rec.v,
                        },
                    ),
                }
            },
        }
    }
}

} // verus!
