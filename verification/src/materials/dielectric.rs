//! Refractive surfaces: Snell's law, total internal reflection, and the
//! Schlick reflectance draw.

use vstd::prelude::*;
use crate::math::{
    ONE, fx_mul, fx_mul_spec, fx_div, fx_div_spec, fx_sqrt, fx_sqrt_spec, sub_i64, sub_i64_spec,
    reflectance, reflectance_spec,
};
use crate::vec3::{
    Vector3, dot_spec, v_neg_spec, normalize_spec, reflect, reflect_spec, refract, refract_spec,
};
use crate::ray::Ray;
use crate::objects::global::HitRecord;

verus! {

#[derive(Clone, Copy, PartialEq, Eq, Structural, Debug)]
pub struct Dielectric {
    pub refraction_index: i64,
}

impl Dielectric {
    pub fn new(refraction_index: i64) -> (r: Dielectric)
        ensures
            r.refraction_index == refraction_index,
    {
        Dielectric { refraction_index }
    }

    /// Attenuation is white; the direction reflects on total internal
    /// reflection or when the Schlick reflectance exceeds the uniform draw,
    /// and refracts otherwise.
    pub fn scatter(&self, ray_in: Ray, rec: &HitRecord, uniform: i64) -> (r: Option<
        (Vector3, Ray),
    >)
        ensures
            r == dielectric_scatter_spec(*self, ray_in, *rec, uniform),
    {
        let ri: i64 = if rec.front_face {
            match fx_div(65536, self.refraction_index) {
                Some(x) => x,
                None => { return None; },
            }
        } else {
            self.refraction_index
        };
        let unit_direction: Vector3 = match ray_in.direction.normalize() {
            Some(x) => x,
            None => { return None; },
        };
        let nud: Vector3 = match unit_direction.neg() {
            Some(x) => x,
            None => { return None; },
        };
        let d0: i64 = match nud.dot(rec.normal) {
            Some(x) => x,
            None => { return None; },
        };
        let cos_tetha: i64 = if d0 > ONE {
            ONE
        } else {
            d0
        };
        let c2: i64 = match fx_mul(cos_tetha, cos_tetha) {
            Some(x) => x,
            None => { return None; },
        };
        let s2: i64 = match sub_i64(65536, c2) {
            Some(x) => x,
            None => { return None; },
        };
        if s2 < 0 {
            return None;
        }
        let sin_tetha: i64 = fx_sqrt(s2);
        let risin: i64 = match fx_mul(ri, sin_tetha) {
            Some(x) => x,
            None => { return None; },
        };
        let cannot_refract: bool = risin > ONE;
        let refl: i64 = match reflectance(cos_tetha, ri) {
            Some(x) => x,
            None => { return None; },
        };
        let direction: Vector3 = if cannot_refract || refl > uniform {
            match reflect(unit_direction, rec.normal) {
                Some(x) => x,
                None => { return None; },
            }
        } else {
            match refract(unit_direction, rec.normal, ri) {
                Some(x) => x,
                None => { return None; },
            }
        };
        Some((Vector3 { x: 65536, y: 65536, z: 65536 }, Ray {
            origin: rec.point,
            direction,
        }))
    }
}

/// The whole dielectric decision, with the effective index `1/n` on a front
/// face and `n` on a back face.
pub open spec fn dielectric_scatter_spec(
    m: Dielectric,
    ray_in: Ray,
    rec: HitRecord,
    uniform: i64,
) -> Option<(Vector3, Ray)> {
    let ri_opt = if rec.front_face {
        fx_div_spec(ONE, m.refraction_index)
    } else {
        Some(m.refraction_index)
    };
    match ri_opt {
        None => None,
        Some(ri) => match normalize_spec(ray_in.direction) {
            None => None,
            Some(unit_direction) => match v_neg_spec(unit_direction) {
                None => None,
                Some(nud) => match dot_spec(nud, rec.normal) {
                    None => None,
                    Some(d0) => {
                        let cos = if d0 > ONE {
                            ONE
                        } else {
                            d0
                        };
                        match fx_mul_spec(cos, cos) {
                            None => None,
                            Some(c2) => match sub_i64_spec(ONE, c2) {
                                None => None,
                                Some(s2) => if s2 < 0 {
                                    None
                                } else {
                                    let sin = fx_sqrt_spec(s2);
                                    match fx_mul_spec(ri, sin) {
                                        None => None,
                                        Some(risin) => match reflectance_spec(cos, ri) {
                                            None => None,
                                            Some(refl) => {
                                                let dir_opt = if risin > ONE || refl > uniform {
                                                    reflect_spec(unit_direction, rec.normal)
                                                } else {
                                                    refract_spec(unit_direction, rec.normal, ri)
                                                };
                                                match dir_opt {
                                                    None => None,
                                                    Some(direction) => Some(
                                                        (
                                                            Vector3 {
                                                                x: ONE,
                                                                y: ONE,
                                                                z: ONE,
                                                            },
                                                            Ray {
                                                                origin: rec.point,
                                                                direction,
                                                            },
                                                        ),
                                                    ),
                                                }
                                            },
                                        },
                                    }
                                },
                            },
                        }
                    },
                },
            },
        },
    }
}

} // verus!
