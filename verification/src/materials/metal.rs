//! Reflective surfaces with roughness.

use vstd::prelude::*;
use crate::math::{ONE, clamp_spec, clamp_fx};
use crate::vec3::{
    Vector3, reflect, reflect_spec, normalize_spec, v_scale_spec, v_add_spec,
};
use crate::ray::Ray;
use crate::objects::global::HitRecord;

verus! {

#[derive(Clone, Copy, PartialEq, Eq, Structural, Debug)]
pub struct Metal {
    pub albedo: Vector3,
    pub fuzziness: i64,
}

impl Metal {
    /// The roughness is clamped into `[0, 1]`.
    pub fn new(color: Vector3, fuzziness: i64) -> (r: Metal)
        ensures
            r.albedo == color,
            r.fuzziness == clamp_spec(fuzziness, 0, ONE),
    {
        Metal { albedo: color, fuzziness: clamp_fx(fuzziness, 0, 65536) }
    }

    /// Mirror reflection of the incoming direction, normalized and perturbed
    /// by `fuzziness` times a random unit direction; the perturbed direction
    /// is reported even when it points into the surface.
    pub fn scatter(&self, ray_in: Ray, rec: &HitRecord, unit: Vector3) -> (r: Option<
        (Vector3, Ray),
    >)
        ensures
            r == metal_scatter_spec(*self, ray_in, *rec, unit),
    {
        let reflected: Vector3 = match reflect(ray_in.direction, rec.normal) {
            Some(x) => x,
            None => { return None; },
        };
        let normalized: Vector3 = match reflected.normalize() {
            Some(x) => x,
            None => { return None; },
        };
        let fuzzed: Vector3 = match unit.scale(self.fuzziness) {
            Some(x) => x,
            None => { return None; },
        };
        let dir: Vector3 = match normalized.add(fuzzed) {
            Some(x) => x,
            None => { return None; },
        };
        Some((self.albedo, Ray { origin: rec.point, direction: dir }))
    }
}

pub open spec fn metal_scatter_spec(m: Metal, ray_in: Ray, rec: HitRecord, unit: Vector3) -> Option<
    (Vector3, Ray),
> {
    match reflect_spec(ray_in.direction, rec.normal) {
        None => None,
        Some(reflected) => match normalize_spec(reflected) {
            None => None,
            Some(normalized) => match v_scale_spec(m.fuzziness, unit) {
                None => None,
                Some(fuzzed) => match v_add_spec(normalized, fuzzed) {
                    None => None,
                    Some(dir) => Some((m.albedo, Ray { origin: rec.point, direction: dir })),
                },
            },
        },
    }
}

} // verus!
