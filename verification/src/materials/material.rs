//! The material model: a closed set of scatter/emit variants.
//!
//! Scattering is stochastic; here the random draws are
//! a value of their own (`ScatterSample`), so that `scatter` is a function
//! of its arguments with an exact contract, and `scatter_random` draws the
//! sample itself and is specified by existence.

use vstd::prelude::*;
use crate::math::{ONE, abs_i, random_float};
use crate::vec3::{Vector3, v_add_spec, near_zero_spec, random_unit_vector, accepted_unit_sample};
use crate::ray::Ray;
use crate::objects::global::HitRecord;
use crate::materials::metal::{Metal, metal_scatter_spec};
use crate::materials::dielectric::{Dielectric, dielectric_scatter_spec};
use crate::materials::diffuse_light::DiffuseLight;

verus! {

/// A diffuse (Lambertian) surface.
#[derive(Clone, Copy, PartialEq, Eq, Structural, Debug)]
pub struct Lambertian {
    pub albedo: Vector3,
}

impl Lambertian {
    pub fn new(color: Vector3) -> (r: Lambertian)
        ensures
            r.albedo == color,
    {
        Lambertian { albedo: color }
    }
}

/// The random draws a scatter consumes: a roughly unit direction and a
/// uniform scalar in `[0, 1)`.
#[derive(Clone, Copy, PartialEq, Eq, Structural, Debug)]
pub struct ScatterSample {
    pub unit: Vector3,
    pub uniform: i64,
}

/// A sample the library can draw: the uniform scalar lies in `[0, 1)`, and
/// the direction carries `random_unit_vector`'s characterization — its
/// components stay within two units, and it is either the fixed fallback
/// axis or the normalization of an accepted cube sample whose squared
/// length lay in `[1/4, 1]`.
pub open spec fn valid_scatter_sample(s: ScatterSample) -> bool {
    abs_i(s.unit.x as int) <= 2 * ONE && abs_i(s.unit.y as int) <= 2 * ONE && abs_i(
        s.unit.z as int,
    ) <= 2 * ONE && 0 <= s.uniform < ONE && (s.unit == (Vector3 { x: 0, y: 0, z: ONE })
        || exists|p: Vector3, lensq: i64| accepted_unit_sample(p, lensq, s.unit))
}

/// Lambertian scattering: the normal plus a random unit direction, falling
/// back to the normal when the sum is degenerate; attenuation is the albedo.
pub open spec fn lambertian_scatter_spec(m: Lambertian, rec: HitRecord, unit: Vector3) -> Option<
    (Vector3, Ray),
> {
    match v_add_spec(rec.normal, unit) {
        None => None,
        Some(dir0) => {
            let dir = if near_zero_spec(dir0) {
                rec.normal
            } else {
                dir0
            };
            Some((m.albedo, Ray { origin: rec.point, direction: dir }))
        },
    }
}

/// A material: diffuse, reflective, refractive, or emissive.
pub enum Material {
    Lambertian(Lambertian),
    Metal(Metal),
    Dielectric(Dielectric),
    DiffuseLight(DiffuseLight),
}

pub open spec fn material_scatter_spec(
    m: Material,
    ray_in: Ray,
    rec: HitRecord,
    s: ScatterSample,
) -> Option<(Vector3, Ray)> {
    match m {
        Material::Lambertian(l) => lambertian_scatter_spec(l, rec, s.unit),
        Material::Metal(mt) => metal_scatter_spec(mt, ray_in, rec, s.unit),
        Material::Dielectric(d) => dielectric_scatter_spec(d, ray_in, rec, s.uniform),
        Material::DiffuseLight(_) => None,
    }
}

/// Emission: the configured color for a diffuse light, black otherwise,
/// independent of the surface coordinates and the point.
pub open spec fn material_emitted_spec(m: Material, u: i64, v: i64, point: Vector3) -> Vector3 {
    match m {
        Material::DiffuseLight(dl) => dl.color,
        _ => Vector3 { x: 0, y: 0, z: 0 },
    }
}

/// Against a nonzero normal a Lambertian scatter direction is never the
/// zero vector: a degenerate sum of normal and sample is replaced by the
/// normal itself. (That the direction never opposes the normal is a
/// real-arithmetic fact about exactly unit sample vectors; the fixed-point
/// samples are only roughly unit, so it is not claimed.)
pub proof fn lemma_lambertian_direction_nonzero(m: Lambertian, rec: HitRecord, unit: Vector3)
    requires
        !near_zero_spec(rec.normal),
        lambertian_scatter_spec(m, rec, unit) is Some,
    ensures
        !near_zero_spec((lambertian_scatter_spec(m, rec, unit)->0).1.direction),
{
}

/// A diffuse light never scatters: for every incoming ray, hit record and
/// random sample, the scatter outcome is absorption.
pub proof fn lemma_diffuse_light_never_scatters(
    dl: DiffuseLight,
    ray_in: Ray,
    rec: HitRecord,
    s: ScatterSample,
)
    ensures
        material_scatter_spec(Material::DiffuseLight(dl), ray_in, rec, s) is None,
{
}

/// A diffuse light's emission does not depend on the surface coordinates or
/// the point.
pub proof fn lemma_diffuse_light_emission_invariant(
    dl: DiffuseLight,
    u1: i64,
    v1: i64,
    p1: Vector3,
    u2: i64,
    v2: i64,
    p2: Vector3,
)
    ensures
        material_emitted_spec(Material::DiffuseLight(dl), u1, v1, p1) == material_emitted_spec(
            Material::DiffuseLight(dl),
            u2,
            v2,
            p2,
        ),
        material_emitted_spec(Material::DiffuseLight(dl), u1, v1, p1) == dl.color,
{
}

impl Material {
    /// The scatter outcome for a given random sample: `None` is absorption.
    pub fn scatter(&self, ray_in: Ray, rec: &HitRecord, sample: &ScatterSample) -> (r: Option<
        (Vector3, Ray),
    >)
        ensures
            r == material_scatter_spec(*self, ray_in, *rec, *sample),
    {
        match self {
            Material::Lambertian(l) => {
                match rec.normal.add(sample.unit) {
                    None => None,
                    Some(dir0) => {
                        let dir: Vector3 = if crate::vec3::near_zero(dir0) {
                            rec.normal
                        } else {
                            dir0
                        };
                        Some((l.albedo, Ray { origin: rec.point, direction: dir }))
                    },
                }
            },
            Material::Metal(mt) => mt.scatter(ray_in, rec, sample.unit),
            Material::Dielectric(d) => d.scatter(ray_in, rec, sample.uniform),
            Material::DiffuseLight(_) => None,
        }
    }

    /// The scatter outcome for a fresh random sample: whatever comes back is
    /// the deterministic scatter of some valid sample.
    pub fn scatter_random(&self, ray_in: Ray, rec: &HitRecord) -> (r: Option<(Vector3, Ray)>)
        ensures
            exists|s: ScatterSample|
                valid_scatter_sample(s) && r == material_scatter_spec(*self, ray_in, *rec, s),
    {
        let unit: Vector3 = random_unit_vector();
        let uniform: i64 = random_float();
        let sample = ScatterSample { unit, uniform };
        let r = self.scatter(ray_in, rec, &sample);
        proof {
            assert(valid_scatter_sample(sample) && r == material_scatter_spec(
                *self,
                ray_in,
                *rec,
                sample,
            ));
        }
        r
    }

    pub fn color_emitted(&self, u: i64, v: i64, point: Vector3) -> (r: Vector3)
        ensures
            r == material_emitted_spec(*self, u, v, point),
    {
        match self {
            Material::DiffuseLight(dl) => dl.color,
            _ => Vector3 { x: 0, y: 0, z: 0 },
        }
    }
}

} // verus!
