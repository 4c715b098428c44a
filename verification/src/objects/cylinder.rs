//! Capped cylinders: the lateral quadratic in the plane perpendicular to the
//! axis, then the two end-cap planes when the axial projection leaves
//! `[0, height]`.

use vstd::prelude::*;
use crate::math::{
    fx_mul, fx_mul_spec, fx_div, fx_div_spec, fx_sqrt, fx_sqrt_spec, sub_i64, sub_i64_spec,
};
use crate::vec3::{
    Vector3, dot_spec, v_sub_spec, v_add_spec, v_scale_spec, v_neg_spec, normalize_spec,
};
use crate::ray::{Ray, Interval, interval_contains, ray_at_spec};
use crate::objects::global::{HitRecord, set_face_normal_spec};
use crate::objects::sphere::{quadratic_root_spec, quadratic_root};

verus! {

#[derive(Clone, Copy, PartialEq, Eq, Structural, Debug)]
pub struct Cylinder {
    pub origin: Vector3,
    pub axis: Vector3,
    pub radius: i64,
    pub height: i64,
    pub mat: usize,
}

/// A cap record at parameter `t` with the given outward normal, accepted when
/// the cap point lies within the disk radius.
pub open spec fn cylinder_cap_spec(
    c: Cylinder,
    ray: Ray,
    t: i64,
    cap_center: Vector3,
    outward: Vector3,
    r2: i64,
) -> Option<HitRecord> {
    match ray_at_spec(ray, t) {
        None => None,
        Some(p) => match v_sub_spec(p, cap_center) {
            None => None,
            Some(d) => match dot_spec(d, d) {
                None => None,
                Some(dist2) => if dist2 <= r2 {
                    set_face_normal_spec(
                        HitRecord {
                            point: p,
                            normal: outward,
                            mat: c.mat,
                            t,
                            front_face: false,
                            u: 0,
                            v: 0,
                        },
                        ray,
                    )
                } else {
                    None
                },
            },
        },
    }
}

/// The two end caps, tried in order: the base cap (normal `-axis`), then the
/// top cap (normal `+axis`).
pub open spec fn cylinder_caps_spec(c: Cylinder, ray: Ray, ray_t: Interval, r2: i64) -> Option<
    HitRecord,
> {
    match dot_spec(ray.direction, c.axis) {
        None => None,
        Some(den) => match v_sub_spec(c.origin, ray.origin) {
            None => None,
            Some(base_off) => match dot_spec(base_off, c.axis) {
                None => None,
                Some(num1) => match fx_div_spec(num1, den) {
                    None => None,
                    Some(t1) => {
                        let first = if interval_contains(ray_t, t1) {
                            match v_neg_spec(c.axis) {
                                None => None,
                                Some(na) => cylinder_cap_spec(c, ray, t1, c.origin, na, r2),
                            }
                        } else {
                            None
                        };
                        if first is Some {
                            first
                        } else {
                            match v_scale_spec(c.height, c.axis) {
                                None => None,
                                Some(ah) => match v_add_spec(c.origin, ah) {
                                    None => None,
                                    Some(top) => match v_sub_spec(top, ray.origin) {
                                        None => None,
                                        Some(top_off) => match dot_spec(top_off, c.axis) {
                                            None => None,
                                            Some(num2) => match fx_div_spec(num2, den) {
                                                None => None,
                                                Some(t2) => if interval_contains(ray_t, t2) {
                                                    cylinder_cap_spec(c, ray, t2, top, c.axis, r2)
                                                } else {
                                                    None
                                                },
                                            },
                                        },
                                    },
                                },
                            }
                        }
                    },
                },
            },
        },
    }
}

/// A lateral-surface record at the accepted root: the normal is the radial
/// component of the hit point, normalized.
pub open spec fn cylinder_side_spec(
    c: Cylinder,
    ray: Ray,
    root: i64,
    hit_point: Vector3,
    hp_off: Vector3,
    h: i64,
) -> Option<HitRecord> {
    match v_scale_spec(h, c.axis) {
        None => None,
        Some(axial) => match v_sub_spec(hp_off, axial) {
            None => None,
            Some(radial) => match normalize_spec(radial) {
                None => None,
                Some(outward) => set_face_normal_spec(
                    HitRecord {
                        point: hit_point,
                        normal: outward,
                        mat: c.mat,
                        t: root,
                        front_face: false,
                        u: 0,
                        v: 0,
                    },
                    ray,
                ),
            },
        },
    }
}

/// The whole cylinder query.
pub open spec fn cylinder_hit_spec(c: Cylinder, ray: Ray, ray_t: Interval) -> Option<HitRecord> {
    match v_sub_spec(ray.origin, c.origin) {
        None => None,
        Some(oc) => match dot_spec(ray.direction, ray.direction) {
            None => None,
            Some(d2) => match dot_spec(c.axis, ray.direction) {
                None => None,
                Some(ad) => match fx_mul_spec(ad, ad) {
                    None => None,
                    Some(ad2) => match sub_i64_spec(d2, ad2) {
                        None => None,
                        Some(a) => match dot_spec(oc, ray.direction) {
                            None => None,
                            Some(od) => match dot_spec(c.axis, oc) {
                                None => None,
                                Some(ao) => match fx_mul_spec(ao, ad) {
                                    None => None,
                                    Some(aoad) => match sub_i64_spec(od, aoad) {
                                        None => None,
                                        Some(b) => match dot_spec(oc, oc) {
                                            None => None,
                                            Some(oc2) => match fx_mul_spec(ao, ao) {
                                                None => None,
                                                Some(ao2) => match fx_mul_spec(
                                                    c.radius,
                                                    c.radius,
                                                ) {
                                                    None => None,
                                                    Some(r2) => match sub_i64_spec(oc2, ao2) {
                                                        None => None,
                                                        Some(oc2ao2) => match sub_i64_spec(
                                                            oc2ao2,
                                                            r2,
                                                        ) {
                                                            None => None,
                                                            Some(cc) => cylinder_roots_spec(
                                                                c,
                                                                ray,
                                                                ray_t,
                                                                a,
                                                                b,
                                                                cc,
                                                                r2,
                                                            ),
                                                        },
                                                    },
                                                },
                                            },
                                        },
                                    },
                                },
                            },
                        },
                    },
                },
            },
        },
    }
}

/// Discriminant, root selection, and the lateral/cap decision.
pub open spec fn cylinder_roots_spec(
    c: Cylinder,
    ray: Ray,
    ray_t: Interval,
    a: i64,
    b: i64,
    cc: i64,
    r2: i64,
) -> Option<HitRecord> {
    match fx_mul_spec(b, b) {
        None => None,
        Some(b2) => match fx_mul_spec(a, cc) {
            None => None,
            Some(ac) => match sub_i64_spec(b2, ac) {
                None => None,
                Some(disc) => if disc < 0 {
                    None
                } else {
                    match sub_i64_spec(0, b) {
                        None => None,
                        Some(nb) => match quadratic_root_spec(nb, fx_sqrt_spec(disc), a, ray_t) {
                            None => None,
                            Some(root) => match ray_at_spec(ray, root) {
                                None => None,
                                Some(hit_point) => match v_sub_spec(hit_point, c.origin) {
                                    None => None,
                                    Some(hp_off) => match dot_spec(c.axis, hp_off) {
                                        None => None,
                                        Some(h) => if h < 0 || h > c.height {
                                            cylinder_caps_spec(c, ray, ray_t, r2)
                                        } else {
                                            cylinder_side_spec(c, ray, root, hit_point, hp_off, h)
                                        },
                                    },
                                },
                            },
                        },
                    }
                },
            },
        },
    }
}

impl Cylinder {
    pub fn new(origin: Vector3, axis: Vector3, radius: i64, height: i64, mat: usize) -> (r:
        Cylinder)
        ensures
            r == (Cylinder { origin, axis, radius, height, mat }),
    {
        Cylinder { origin, axis, radius, height, mat }
    }

    pub fn hit(&self, ray: Ray, ray_t: Interval) -> (r: Option<HitRecord>)
        ensures
            r == cylinder_hit_spec(*self, ray, ray_t),
    {
        let oc: Vector3 = match ray.origin.sub(self.origin) {
            Some(x) => x,
            None => { return None; },
        };
        let d2: i64 = match ray.direction.dot(ray.direction) {
            Some(x) => x,
            None => { return None; },
        };
        let ad: i64 = match self.axis.dot(ray.direction) {
            Some(x) => x,
            None => { return None; },
        };
        let ad2: i64 = match fx_mul(ad, ad) {
            Some(x) => x,
            None => { return None; },
        };
        let a: i64 = match sub_i64(d2, ad2) {
            Some(x) => x,
            None => { return None; },
        };
        let od: i64 = match oc.dot(ray.direction) {
            Some(x) => x,
            None => { return None; },
        };
        let ao: i64 = match self.axis.dot(oc) {
            Some(x) => x,
            None => { return None; },
        };
        let aoad: i64 = match fx_mul(ao, ad) {
            Some(x) => x,
            None => { return None; },
        };
        let b: i64 = match sub_i64(od, aoad) {
            Some(x) => x,
            None => { return None; },
        };
        let oc2: i64 = match oc.dot(oc) {
            Some(x) => x,
            None => { return None; },
        };
        let ao2: i64 = match fx_mul(ao, ao) {
            Some(x) => x,
            None => { return None; },
        };
        let r2: i64 = match fx_mul(self.radius, self.radius) {
            Some(x) => x,
            None => { return None; },
        };
        let oc2ao2: i64 = match sub_i64(oc2, ao2) {
            Some(x) => x,
            None => { return None; },
        };
        let cc: i64 = match sub_i64(oc2ao2, r2) {
            Some(x) => x,
            None => { return None; },
        };
        let b2: i64 = match fx_mul(b, b) {
            Some(x) => x,
            None => { return None; },
        };
        let ac: i64 = match fx_mul(a, cc) {
            Some(x) => x,
            None => { return None; },
        };
        let disc: i64 = match sub_i64(b2, ac) {
            Some(x) => x,
            None => { return None; },
        };
        if disc < 0 {
            return None;
        }
        let nb: i64 = match sub_i64(0, b) {
            Some(x) => x,
            None => { return None; },
        };
        let sqrtd: i64 = fx_sqrt(disc);
        let root: i64 = match quadratic_root(nb, sqrtd, a, ray_t) {
            Some(x) => x,
            None => { return None; },
        };
        let hit_point: Vector3 = match ray.at(root) {
            Some(x) => x,
            None => { return None; },
        };
        let hp_off: Vector3 = match hit_point.sub(self.origin) {
            Some(x) => x,
            None => { return None; },
        };
        let h: i64 = match self.axis.dot(hp_off) {
            Some(x) => x,
            None => { return None; },
        };
        if h < 0 || h > self.height {
            return self.hit_caps(ray, ray_t, r2);
        }
        let axial: Vector3 = match self.axis.scale(h) {
            Some(x) => x,
            None => { return None; },
        };
        let radial: Vector3 = match hp_off.sub(axial) {
            Some(x) => x,
            None => { return None; },
        };
        let outward: Vector3 = match radial.normalize() {
            Some(x) => x,
            None => { return None; },
        };
        let mut rec = HitRecord {
            point: hit_point,
            normal: outward,
            mat: self.mat,
            t: root,
            front_face: false,
            u: 0,
            v: 0,
        };
        if rec.set_face_normal(ray) {
            Some(rec)
        } else {
            None
        }
    }

    /// The end caps, tried base first.
    fn hit_caps(&self, ray: Ray, ray_t: Interval, r2: i64) -> (r: Option<HitRecord>)
        ensures
            r == cylinder_caps_spec(*self, ray, ray_t, r2),
    {
        let den: i64 = match ray.direction.dot(self.axis) {
            Some(x) => x,
            None => { return None; },
        };
        let base_off: Vector3 = match self.origin.sub(ray.origin) {
            Some(x) => x,
            None => { return None; },
        };
        let num1: i64 = match base_off.dot(self.axis) {
            Some(x) => x,
            None => { return None; },
        };
        let t1: i64 = match fx_div(num1, den) {
            Some(x) => x,
            None => { return None; },
        };
        if ray_t.contains(t1) {
            match self.axis.neg() {
                Some(na) => {
                    match self.cap_record(ray, t1, self.origin, na, r2) {
                        Some(rec) => { return Some(rec); },
                        None => {},
                    }
                },
                None => {},
            }
        }
        let ah: Vector3 = match self.axis.scale(self.height) {
            Some(x) => x,
            None => { return None; },
        };
        let top: Vector3 = match self.origin.add(ah) {
            Some(x) => x,
            None => { return None; },
        };
        let top_off: Vector3 = match top.sub(ray.origin) {
            Some(x) => x,
            None => { return None; },
        };
        let num2: i64 = match top_off.dot(self.axis) {
            Some(x) => x,
            None => { return None; },
        };
        let t2: i64 = match fx_div(num2, den) {
            Some(x) => x,
            None => { return None; },
        };
        if ray_t.contains(t2) {
            self.cap_record(ray, t2, top, self.axis, r2)
        } else {
            None
        }
    }

    /// One cap test at parameter `t`.
    fn cap_record(&self, ray: Ray, t: i64, cap_center: Vector3, outward: Vector3, r2: i64) -> (r:
        Option<HitRecord>)
        ensures
            r == cylinder_cap_spec(*self, ray, t, cap_center, outward, r2),
    {
        let p: Vector3 = match ray.at(t) {
            Some(x) => x,
            None => { return None; },
        };
        let d: Vector3 = match p.sub(cap_center) {
            Some(x) => x,
            None => { return None; },
        };
        let dist2: i64 = match d.dot(d) {
            Some(x) => x,
            None => { return None; },
        };
        if dist2 <= r2 {
            let mut rec = HitRecord {
                point: p,
                normal: outward,
                mat: self.mat,
                t,
                front_face: false,
                u: 0,
                v: 0,
            };
            if rec.set_face_normal(ray) {
                Some(rec)
            } else {
                None
            }
        } else {
            None
        }
    }
}

} // verus!
