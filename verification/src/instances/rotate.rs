//! The rotate decorator: rotation about the vertical axis by a fixed angle,
//! with the sine and cosine precomputed at construction.

use vstd::prelude::*;
use crate::math::{
    ONE, fx_mul, fx_mul_spec, add_i64, add_i64_spec, sub_i64, sub_i64_spec, degrees_to_radians,
    deg2rad_spec, sin_fx, spec_sin_fx, cos_fx, spec_cos_fx,
};
use crate::vec3::Vector3;
use crate::ray::{Ray, Interval};
use crate::objects::global::{HitRecord, Hittable, hittable_hit_spec};

verus! {

pub struct Rotate {
    pub object: Box<Hittable>,
    pub cos_theta: i64,
    pub sin_theta: i64,
}

/// Rotation by `-theta` about the vertical axis (world to object space):
/// `x' = cos x - sin z`, `z' = sin x + cos z`.
pub open spec fn rot_to_object_spec(v: Vector3, cos: i64, sin: i64) -> Option<Vector3> {
    match (fx_mul_spec(cos, v.x), fx_mul_spec(sin, v.z), fx_mul_spec(sin, v.x), fx_mul_spec(
        cos,
        v.z,
    )) {
        (Some(a), Some(b), Some(c), Some(d)) => match (sub_i64_spec(a, b), add_i64_spec(c, d)) {
            (Some(x), Some(z)) => Some(Vector3 { x, y: v.y, z }),
            _ => None,
        },
        _ => None,
    }
}

/// Rotation by `+theta` about the vertical axis (object to world space):
/// `x' = cos x + sin z`, `z' = -sin x + cos z`.
pub open spec fn rot_to_world_spec(v: Vector3, cos: i64, sin: i64) -> Option<Vector3> {
    match (fx_mul_spec(cos, v.x), fx_mul_spec(sin, v.z), fx_mul_spec(sin, v.x), fx_mul_spec(
        cos,
        v.z,
    )) {
        (Some(a), Some(b), Some(c), Some(d)) => match (add_i64_spec(a, b), sub_i64_spec(d, c)) {
            (Some(x), Some(z)) => Some(Vector3 { x, y: v.y, z }),
            _ => None,
        },
        _ => None,
    }
}

pub open spec fn rotate_hit_spec(rot: Rotate, ray: Ray, ray_t: Interval) -> Option<HitRecord>
    decreases rot,
{
    match rot_to_object_spec(ray.origin, rot.cos_theta, rot.sin_theta) {
        None => None,
        Some(o) => match rot_to_object_spec(ray.direction, rot.cos_theta, rot.sin_theta) {
            None => None,
            Some(dir) => match hittable_hit_spec(
                *rot.object,
                Ray { origin: o, direction: dir },
                ray_t,
            ) {
                None => None,
                Some(rec) => match rot_to_world_spec(rec.point, rot.cos_theta, rot.sin_theta) {
                    None => None,
                    Some(p) => match rot_to_world_spec(
                        rec.normal,
                        rot.cos_theta,
                        rot.sin_theta,
                    ) {
                        None => None,
                        Some(n) => Some(
                            HitRecord {
                                point: p,
                                normal: n,
                                mat: rec.mat,
                                t: rec.t,
                                front_face: rec.front_face,
                                u: rec.u,
                                v: rec.v,
                            },
                        ),
                    },
                },
            },
        },
    }
}

fn rot_to_object(v: Vector3, cos: i64, sin: i64) -> (r: Option<Vector3>)
    ensures
        r == rot_to_object_spec(v, cos, sin),
{
    match (fx_mul(cos, v.x), fx_mul(sin, v.z), fx_mul(sin, v.x), fx_mul(cos, v.z)) {
        (Some(a), Some(b), Some(c), Some(d)) => match (sub_i64(a, b), add_i64(c, d)) {
            (Some(x), Some(z)) => Some(Vector3 { x, y: v.y, z }),
            _ => None,
        },
        _ => None,
    }
}

fn rot_to_world(v: Vector3, cos: i64, sin: i64) -> (r: Option<Vector3>)
    ensures
        r == rot_to_world_spec(v, cos, sin),
{
    match (fx_mul(cos, v.x), fx_mul(sin, v.z), fx_mul(sin, v.x), fx_mul(cos, v.z)) {
        (Some(a), Some(b), Some(c), Some(d)) => match (add_i64(a, b), sub_i64(d, c)) {
            (Some(x), Some(z)) => Some(Vector3 { x, y: v.y, z }),
            _ => None,
        },
        _ => None,
    }
}

/// With cosine one and sine zero both rotations are the exact identity.
pub proof fn lemma_rot_identity(v: Vector3)
    ensures
        rot_to_object_spec(v, ONE, 0) == Some(v),
        rot_to_world_spec(v, ONE, 0) == Some(v),
{
    crate::math::lemma_fx_mul_one(v.x);
    crate::math::lemma_fx_mul_one(v.z);
    crate::math::lemma_fx_mul_zero(v.x);
    crate::math::lemma_fx_mul_zero(v.z);
}

/// A rotation by zero (cosine one, sine zero) intersects exactly as its
/// child does: same misses, same records. `Rotate::new` with angle zero
/// produces exactly these coefficients (`crate::math::lemma_trig_zero`).
pub proof fn lemma_rotate_zero_is_identity(rot: Rotate, ray: Ray, ray_t: Interval)
    requires
        rot.cos_theta == ONE,
        rot.sin_theta == 0,
    ensures
        rotate_hit_spec(rot, ray, ray_t) == hittable_hit_spec(*rot.object, ray, ray_t),
{
    lemma_rot_identity(ray.origin);
    lemma_rot_identity(ray.direction);
    assert(Ray { origin: ray.origin, direction: ray.direction } == ray);
    match hittable_hit_spec(*rot.object, ray, ray_t) {
        None => {},
        Some(rec) => {
            lemma_rot_identity(rec.point);
            lemma_rot_identity(rec.normal);
            assert(rotate_hit_spec(rot, ray, ray_t) == Some(rec));
        },
    }
}

/// Rotating by zero around a translated object intersects exactly as the
/// translate alone: the child is queried with the ray shifted by the
/// negated offset, and the hit point is shifted back.
pub proof fn lemma_rotate_zero_around_translate(
    rot: Rotate,
    t: crate::instances::translate::Translate,
    ray: Ray,
    ray_t: Interval,
)
    requires
        rot.cos_theta == ONE,
        rot.sin_theta == 0,
        *rot.object == Hittable::Translate(t),
    ensures
        rotate_hit_spec(rot, ray, ray_t) == crate::instances::translate::translate_hit_spec(
            t,
            ray,
            ray_t,
        ),
{
    lemma_rotate_zero_is_identity(rot, ray, ray_t);
}

impl Rotate {
    /// The angle is given in fixed-point degrees.
    pub fn new(object: Box<Hittable>, angle: i64) -> (r: Rotate)
        ensures
            r.object == object,
            r.sin_theta == spec_sin_fx(deg2rad_spec(angle)),
            r.cos_theta == spec_cos_fx(deg2rad_spec(angle)),
    {
        let radians: i64 = degrees_to_radians(angle);
        let sin_theta: i64 = sin_fx(radians);
        let cos_theta: i64 = cos_fx(radians);
        Rotate { object, cos_theta, sin_theta }
    }

    pub fn hit(&self, ray: Ray, ray_t: Interval) -> (r: Option<HitRecord>)
        ensures
            r == rotate_hit_spec(*self, ray, ray_t),
        decreases *self,
    {
        let origin: Vector3 = match rot_to_object(ray.origin, self.cos_theta, self.sin_theta) {
            Some(o) => o,
            None => { return None; },
        };
        let direction: Vector3 = match rot_to_object(
            ray.direction,
            self.cos_theta,
            self.sin_theta,
        ) {
            Some(d) => d,
            None => { return None; },
        };
        let rotated_ray = Ray { origin, direction };
        match self.object.hit(rotated_ray, ray_t) {
            None => None,
            Some(rec) => {
                match rot_to_world(rec.point, self.cos_theta, self.sin_theta) {
                    None => None,
                    Some(p) => {
                        match rot_to_world(rec.normal, self.cos_theta, self.sin_theta) {
                            None => None,
                            Some(n) => Some(
                                HitRecord {
                                    point: p,
                                    normal: n,
                                    mat: rec.mat,
                                    t: rec.t,
                                    front_face: rec.front_face,
                                    u: rec.u,
                                    v: rec.v,
                                },
                            ),
                        }
                    },
                }
            },
        }
    }
}

} // verus!
