//! Spheres: the ray/sphere quadratic, preferring the smaller root in range.

use vstd::prelude::*;
use crate::math::{
    fx_mul, fx_mul_spec, fx_div, fx_div_spec, fx_sqrt, fx_sqrt_spec, add_i64, add_i64_spec,
    sub_i64, sub_i64_spec,
};
use crate::vec3::{Vector3, dot_spec, v_sub_spec, v_div_spec, v_neg_spec};
use crate::ray::{Ray, Interval, interval_contains, ray_at_spec};
use crate::objects::global::{HitRecord, set_face_normal_spec};

verus! {

#[derive(Clone, Copy, PartialEq, Eq, Structural, Debug)]
pub struct Sphere {
    pub center: Vector3,
    pub radius: i64,
    pub mat: usize,
}

/// The root taken by the quadratic solver: the smaller root when it lies in
/// the interval (and its arithmetic stays in range), else the larger, else
/// none.
pub open spec fn quadratic_root_spec(half_b: i64, sqrtd: i64, a: i64, ray_t: Interval) -> Option<
    i64,
> {
    let first = match sub_i64_spec(half_b, sqrtd) {
        None => None,
        Some(n1) => match fx_div_spec(n1, a) {
            None => None,
            Some(r1) => if interval_contains(ray_t, r1) {
                Some(r1)
            } else {
                None
            },
        },
    };
    if first is Some {
        first
    } else {
        match add_i64_spec(half_b, sqrtd) {
            None => None,
            Some(n2) => match fx_div_spec(n2, a) {
                None => None,
                Some(r2) => if interval_contains(ray_t, r2) {
                    Some(r2)
                } else {
                    None
                },
            },
        }
    }
}

/// The shared quadratic root selection: `(half_b - sqrtd) / a`, falling back
/// to `(half_b + sqrtd) / a`.
pub fn quadratic_root(half_b: i64, sqrtd: i64, a: i64, ray_t: Interval) -> (r: Option<i64>)
    ensures
        r == quadratic_root_spec(half_b, sqrtd, a, ray_t),
{
    let first: Option<i64> = match sub_i64(half_b, sqrtd) {
        Some(n1) => match fx_div(n1, a) {
            Some(r1) => if ray_t.contains(r1) {
                Some(r1)
            } else {
                None
            },
            None => None,
        },
        None => None,
    };
    match first {
        Some(r1) => Some(r1),
        None => {
            match add_i64(half_b, sqrtd) {
                Some(n2) => match fx_div(n2, a) {
                    Some(r2) => if ray_t.contains(r2) {
                        Some(r2)
                    } else {
                        None
                    },
                    None => None,
                },
                None => None,
            }
        },
    }
}

/// The record built for an accepted root: the point on the ray, the outward
/// normal `(point - center) / radius`, then face orientation.
pub open spec fn sphere_finish_spec(s: Sphere, ray: Ray, root: i64) -> Option<HitRecord> {
    match ray_at_spec(ray, root) {
        None => None,
        Some(point) => match v_sub_spec(point, s.center) {
            None => None,
            Some(pmc) => match v_div_spec(pmc, s.radius) {
                None => None,
                Some(outward) => set_face_normal_spec(
                    HitRecord {
                        point,
                        normal: outward,
                        mat: s.mat,
                        t: root,
                        front_face: false,
                        u: 0,
                        v: 0,
                    },
                    ray,
                ),
            },
        },
    }
}

/// The whole sphere query: quadratic coefficients from `oc = center - origin`,
/// a negative discriminant (or any range degeneracy) is a miss.
pub open spec fn sphere_hit_spec(s: Sphere, ray: Ray, ray_t: Interval) -> Option<HitRecord> {
    match v_sub_spec(s.center, ray.origin) {
        None => None,
        Some(oc) => match dot_spec(ray.direction, ray.direction) {
            None => None,
            Some(a) => match dot_spec(ray.direction, oc) {
                None => None,
                Some(half_b) => match dot_spec(oc, oc) {
                    None => None,
                    Some(oc2) => match fx_mul_spec(s.radius, s.radius) {
                        None => None,
                        Some(rr) => match sub_i64_spec(oc2, rr) {
                            None => None,
                            Some(c) => match fx_mul_spec(half_b, half_b) {
                                None => None,
                                Some(hb2) => match fx_mul_spec(a, c) {
                                    None => None,
                                    Some(ac) => match sub_i64_spec(hb2, ac) {
                                        None => None,
                                        Some(disc) => if disc < 0 {
                                            None
                                        } else {
                                            match quadratic_root_spec(
                                                half_b,
                                                fx_sqrt_spec(disc),
                                                a,
                                                ray_t,
                                            ) {
                                                None => None,
                                                Some(root) => sphere_finish_spec(s, ray, root),
                                            }
                                        },
                                    },
                                },
                            },
                        },
                    },
                },
            },
        },
    }
}

/// A nonnegative number has an integer square root, so the spec-level root
/// is well defined.
pub proof fn lemma_isqrt_exists(n: int)
    requires
        0 <= n,
    ensures
        crate::math::is_isqrt(n, crate::math::spec_isqrt(n)),
    decreases n,
{
    if n == 0 {
        assert(crate::math::is_isqrt(0, 0));
        crate::math::lemma_isqrt_val(0, 0);
    } else {
        lemma_isqrt_exists(n - 1);
        let r = crate::math::spec_isqrt(n - 1);
        if (r + 1) * (r + 1) <= n {
            assert(n == (r + 1) * (r + 1));
            assert((r + 1) * (r + 1) < (r + 2) * (r + 2)) by (nonlinear_arith)
                requires
                    r >= 0;
            assert(crate::math::is_isqrt(n, r + 1));
            crate::math::lemma_isqrt_val(n, r + 1);
        } else {
            assert(crate::math::is_isqrt(n, r));
            crate::math::lemma_isqrt_val(n, r);
        }
    }
}

/// The normal a sphere reports is radial: the hit point minus the center,
/// divided by the radius, up to the face orientation flip.
pub proof fn lemma_sphere_normal_radial(s: Sphere, ray: Ray, ray_t: Interval, rec: HitRecord)
    requires
        sphere_hit_spec(s, ray, ray_t) == Some(rec),
    ensures
        ({
            let pmc = v_sub_spec(rec.point, s.center);
            &&& pmc is Some
            &&& v_div_spec(pmc->0, s.radius) is Some
            &&& (rec.normal == v_div_spec(pmc->0, s.radius)->0 || v_neg_spec(
                v_div_spec(pmc->0, s.radius)->0,
            ) == Some(rec.normal))
        }),
{
}

/// A sphere hit's parameter lies in the queried interval.
pub proof fn lemma_sphere_t_in_interval(s: Sphere, ray: Ray, ray_t: Interval, rec: HitRecord)
    requires
        sphere_hit_spec(s, ray, ray_t) == Some(rec),
    ensures
        interval_contains(ray_t, rec.t),
{
}

/// How a sphere answers when the top of the interval is tightened: a hit
/// below the new top is kept unchanged, a hit at or above it disappears.
pub proof fn lemma_sphere_hit_narrow(
    s: Sphere,
    ray: Ray,
    tmin: i64,
    m1: i64,
    m2: i64,
    rec: HitRecord,
)
    requires
        sphere_hit_spec(s, ray, Interval { min: tmin, max: m1 }) == Some(rec),
        m2 <= m1,
    ensures
        rec.t < m2 ==> sphere_hit_spec(s, ray, Interval { min: tmin, max: m2 }) == Some(rec),
        rec.t >= m2 ==> sphere_hit_spec(s, ray, Interval { min: tmin, max: m2 }) is None,
{
    let i1 = Interval { min: tmin, max: m1 };
    let i2 = Interval { min: tmin, max: m2 };
    let oc = v_sub_spec(s.center, ray.origin)->0;
    let a = dot_spec(ray.direction, ray.direction)->0;
    let half_b = dot_spec(ray.direction, oc)->0;
    let oc2 = dot_spec(oc, oc)->0;
    let rr = fx_mul_spec(s.radius, s.radius)->0;
    let c = sub_i64_spec(oc2, rr)->0;
    let hb2 = fx_mul_spec(half_b, half_b)->0;
    let ac = fx_mul_spec(a, c)->0;
    let disc = sub_i64_spec(hb2, ac)->0;
    crate::vec3::lemma_dot_self_nonneg(ray.direction);
    assert(a >= 0);
    if a == 0 {
        assert(fx_div_spec(sub_i64_spec(half_b, fx_sqrt_spec(disc))->0, 0) is None);
        assert(false);
    }
    let sqrtd = fx_sqrt_spec(disc);
    lemma_isqrt_exists(disc as int * 65536);
    let rt = crate::math::spec_isqrt(disc as int * 65536);
    assert(rt <= 0x1_0000_0000_0000) by (nonlinear_arith)
        requires
            0 <= rt,
            rt * rt <= disc as int * 65536,
            disc as int * 65536 < 0x1_0000_0000_0000_0000_0000;
    assert(sqrtd >= 0);
    lemma_quadratic_root_narrow(half_b, sqrtd, a, tmin, m1, m2);
}

/// How the quadratic root selection answers under a tightened interval.
pub proof fn lemma_quadratic_root_narrow(
    half_b: i64,
    sqrtd: i64,
    a: i64,
    tmin: i64,
    m1: i64,
    m2: i64,
)
    requires
        a > 0,
        sqrtd >= 0,
        m2 <= m1,
        quadratic_root_spec(half_b, sqrtd, a, Interval { min: tmin, max: m1 }) is Some,
    ensures
        ({
            let root = quadratic_root_spec(half_b, sqrtd, a, Interval { min: tmin, max: m1 })->0;
            &&& (root < m2 ==> quadratic_root_spec(half_b, sqrtd, a, Interval { min: tmin, max: m2 })
                == Some(root))
            &&& (root >= m2 ==> quadratic_root_spec(
                half_b,
                sqrtd,
                a,
                Interval { min: tmin, max: m2 },
            ) is None)
        }),
{
    let i1 = Interval { min: tmin, max: m1 };
    let i2 = Interval { min: tmin, max: m2 };
    let root = quadratic_root_spec(half_b, sqrtd, a, i1)->0;
    match sub_i64_spec(half_b, sqrtd) {
        None => {},
        Some(n1) => {
            match fx_div_spec(n1, a) {
                None => {},
                Some(r1) => {
                    match add_i64_spec(half_b, sqrtd) {
                        None => {
                            assert(interval_contains(i1, r1) && root == r1);
                        },
                        Some(n2) => {
                            match fx_div_spec(n2, a) {
                                None => {
                                    assert(interval_contains(i1, r1) && root == r1);
                                },
                                Some(r2) => {
                                    assert(n1 <= n2);
                                    crate::math::lemma_tdiv_mono_scaled(n1, n2, a);
                                    assert(r1 <= r2);
                                },
                            }
                        },
                    }
                },
            }
        },
    }
}

impl Sphere {
    pub fn new(center: Vector3, radius: i64, mat: usize) -> (r: Sphere)
        ensures
            r == (Sphere { center, radius, mat }),
    {
        Sphere { center, radius, mat }
    }

    pub fn hit(&self, ray: Ray, ray_t: Interval) -> (r: Option<HitRecord>)
        ensures
            r == sphere_hit_spec(*self, ray, ray_t),
    {
        let oc: Vector3 = match self.center.sub(ray.origin) {
            Some(v) => v,
            None => { return None; },
        };
        let a: i64 = match ray.direction.dot(ray.direction) {
            Some(v) => v,
            None => { return None; },
        };
        let half_b: i64 = match ray.direction.dot(oc) {
            Some(v) => v,
            None => { return None; },
        };
        let oc2: i64 = match oc.dot(oc) {
            Some(v) => v,
            None => { return None; },
        };
        let rr: i64 = match fx_mul(self.radius, self.radius) {
            Some(v) => v,
            None => { return None; },
        };
        let c: i64 = match sub_i64(oc2, rr) {
            Some(v) => v,
            None => { return None; },
        };
        let hb2: i64 = match fx_mul(half_b, half_b) {
            Some(v) => v,
            None => { return None; },
        };
        let ac: i64 = match fx_mul(a, c) {
            Some(v) => v,
            None => { return None; },
        };
        let discriminant: i64 = match sub_i64(hb2, ac) {
            Some(v) => v,
            None => { return None; },
        };
        if discriminant < 0 {
            return None;
        }
        let sqrtd: i64 = fx_sqrt(discriminant);
        let root: i64 = match quadratic_root(half_b, sqrtd, a, ray_t) {
            Some(r1) => r1,
            None => { return None; },
        };
        let point: Vector3 = match ray.at(root) {
            Some(v) => v,
            None => { return None; },
        };
        let pmc: Vector3 = match point.sub(self.center) {
            Some(v) => v,
            None => { return None; },
        };
        let outward: Vector3 = match pmc.div(self.radius) {
            Some(v) => v,
            None => { return None; },
        };
        let mut rec = HitRecord {
            point,
            normal: outward,
            mat: self.mat,
            t: root,
            front_face: false,
            u: 0,
            v: 0,
        };
        if rec.set_face_normal(ray) {
            Some(rec)
        } else {
            None
        }
    }
}

} // verus!
