//! Planar quadrilaterals, and the box composite built from six of them.

use vstd::prelude::*;
use crate::math::{ONE, fx_div, fx_div_spec, sub_i64, sub_i64_spec};
use crate::vec3::{Vector3, dot_spec, cross_spec, normalize_spec, v_sub_spec, v_neg_spec, v_div_spec};
use crate::ray::{Ray, Interval, interval_contains, ray_at_spec};
use crate::objects::global::{HitRecord, Hittable, HittableList, set_face_normal_spec};

verus! {

#[derive(Clone, Copy, PartialEq, Eq, Structural, Debug)]
pub struct Quad {
    pub q: Vector3,
    pub u: Vector3,
    pub v: Vector3,
    pub w: Vector3,
    pub mat: usize,
    pub normal: Vector3,
    pub d: i64,
}

/// The derived quantities of a quad: plane normal `normalize(u x v)`, plane
/// offset `normal . q`, and the projection vector `w = (u x v) / |u x v|^2`;
/// a degenerate edge pair yields no quad.
pub open spec fn quad_new_spec(q: Vector3, u: Vector3, v: Vector3, mat: usize) -> Option<Quad> {
    match cross_spec(u, v) {
        None => None,
        Some(n) => match normalize_spec(n) {
            None => None,
            Some(normal) => match dot_spec(normal, q) {
                None => None,
                Some(d) => match dot_spec(n, n) {
                    None => None,
                    Some(nlen2) => match v_div_spec(n, nlen2) {
                        None => None,
                        Some(w) => Some(Quad { q, u, v, w, mat, normal, d }),
                    },
                },
            },
        },
    }
}

/// Both planar coordinates lie in `[0, 1)`.
pub open spec fn is_interior_spec(alpha: i64, beta: i64) -> bool {
    0 <= alpha < ONE && 0 <= beta < ONE
}

pub fn is_interior(alpha: i64, beta: i64) -> (r: bool)
    ensures
        r == is_interior_spec(alpha, beta),
{
    0 <= alpha && alpha < ONE && 0 <= beta && beta < ONE
}

/// The quad query: a parallel ray (zero fixed-point denominator) misses;
/// otherwise the plane parameter is checked against the interval and the
/// hit point is projected onto the edge basis.
pub open spec fn quad_hit_spec(qd: Quad, ray: Ray, ray_t: Interval) -> Option<HitRecord> {
    match dot_spec(qd.normal, ray.direction) {
        None => None,
        Some(denom) => if denom == 0 {
            None
        } else {
            match dot_spec(qd.normal, ray.origin) {
                None => None,
                Some(nd) => match sub_i64_spec(qd.d, nd) {
                    None => None,
                    Some(num) => match fx_div_spec(num, denom) {
                        None => None,
                        Some(t) => if !interval_contains(ray_t, t) {
                            None
                        } else {
                            match ray_at_spec(ray, t) {
                                None => None,
                                Some(intersection) => match v_sub_spec(intersection, qd.q) {
                                    None => None,
                                    Some(planar) => match cross_spec(planar, qd.v) {
                                        None => None,
                                        Some(pxv) => match dot_spec(qd.w, pxv) {
                                            None => None,
                                            Some(alpha) => match cross_spec(qd.u, planar) {
                                                None => None,
                                                Some(uxp) => match dot_spec(qd.w, uxp) {
                                                    None => None,
                                                    Some(beta) => if !is_interior_spec(
                                                        alpha,
                                                        beta,
                                                    ) {
                                                        None
                                                    } else {
                                                        set_face_normal_spec(
                                                            HitRecord {
                                                                point: intersection,
                                                                normal: qd.normal,
                                                                mat: qd.mat,
                                                                t,
                                                                front_face: false,
                                                                u: alpha,
                                                                v: beta,
                                                            },
                                                            ray,
                                                        )
                                                    },
                                                },
                                            },
                                        },
                                    },
                                },
                            }
                        },
                    },
                },
            }
        },
    }
}

impl Quad {
    pub fn new(q: Vector3, u: Vector3, v: Vector3, mat: usize) -> (r: Option<Quad>)
        ensures
            r == quad_new_spec(q, u, v, mat),
    {
        let n: Vector3 = match u.cross(v) {
            Some(x) => x,
            None => { return None; },
        };
        let normal: Vector3 = match n.normalize() {
            Some(x) => x,
            None => { return None; },
        };
        let d: i64 = match normal.dot(q) {
            Some(x) => x,
            None => { return None; },
        };
        let nlen2: i64 = match n.dot(n) {
            Some(x) => x,
            None => { return None; },
        };
        let w: Vector3 = match n.div(nlen2) {
            Some(x) => x,
            None => { return None; },
        };
        Some(Quad { q, u, v, w, mat, normal, d })
    }

    pub fn hit(&self, ray: Ray, ray_t: Interval) -> (r: Option<HitRecord>)
        ensures
            r == quad_hit_spec(*self, ray, ray_t),
    {
        let denom: i64 = match self.normal.dot(ray.direction) {
            Some(x) => x,
            None => { return None; },
        };
        if denom == 0 {
            return None;
        }
        let nd: i64 = match self.normal.dot(ray.origin) {
            Some(x) => x,
            None => { return None; },
        };
        let num: i64 = match sub_i64(self.d, nd) {
            Some(x) => x,
            None => { return None; },
        };
        let t: i64 = match fx_div(num, denom) {
            Some(x) => x,
            None => { return None; },
        };
        if !ray_t.contains(t) {
            return None;
        }
        let intersection: Vector3 = match ray.at(t) {
            Some(x) => x,
            None => { return None; },
        };
        let planar: Vector3 = match intersection.sub(self.q) {
            Some(x) => x,
            None => { return None; },
        };
        let pxv: Vector3 = match planar.cross(self.v) {
            Some(x) => x,
            None => { return None; },
        };
        let alpha: i64 = match self.w.dot(pxv) {
            Some(x) => x,
            None => { return None; },
        };
        let uxp: Vector3 = match self.u.cross(planar) {
            Some(x) => x,
            None => { return None; },
        };
        let beta: i64 = match self.w.dot(uxp) {
            Some(x) => x,
            None => { return None; },
        };
        if !is_interior(alpha, beta) {
            return None;
        }
        let mut rec = HitRecord {
            point: intersection,
            normal: self.normal,
            mat: self.mat,
            t,
            front_face: false,
            u: alpha,
            v: beta,
        };
        if rec.set_face_normal(ray) {
            Some(rec)
        } else {
            None
        }
    }
}

/// The six face quads of the axis-aligned box spanned by `a` and `b`, in the
/// order front, right, back, left, top, bottom.
pub open spec fn box_quads_spec(a: Vector3, b: Vector3, mat: usize) -> Option<
    (Quad, Quad, Quad, Quad, Quad, Quad),
> {
    let minv = Vector3 {
        x: if a.x < b.x { a.x } else { b.x },
        y: if a.y < b.y { a.y } else { b.y },
        z: if a.z < b.z { a.z } else { b.z },
    };
    let maxv = Vector3 {
        x: if a.x > b.x { a.x } else { b.x },
        y: if a.y > b.y { a.y } else { b.y },
        z: if a.z > b.z { a.z } else { b.z },
    };
    match (sub_i64_spec(maxv.x, minv.x), sub_i64_spec(maxv.y, minv.y), sub_i64_spec(
        maxv.z,
        minv.z,
    )) {
        (Some(ex), Some(ey), Some(ez)) => {
            let dx = Vector3 { x: ex, y: 0, z: 0 };
            let dy = Vector3 { x: 0, y: ey, z: 0 };
            let dz = Vector3 { x: 0, y: 0, z: ez };
            match (v_neg_spec(dx), v_neg_spec(dz)) {
                (Some(ndx), Some(ndz)) => {
                    match (
                        quad_new_spec(Vector3 { x: minv.x, y: minv.y, z: maxv.z }, dx, dy, mat),
                        quad_new_spec(Vector3 { x: maxv.x, y: minv.y, z: maxv.z }, ndz, dy, mat),
                        quad_new_spec(Vector3 { x: maxv.x, y: minv.y, z: minv.z }, ndx, dy, mat),
                        quad_new_spec(Vector3 { x: minv.x, y: minv.y, z: minv.z }, dz, dy, mat),
                        quad_new_spec(Vector3 { x: minv.x, y: maxv.y, z: maxv.z }, dx, ndz, mat),
                        quad_new_spec(Vector3 { x: minv.x, y: minv.y, z: minv.z }, dx, dz, mat),
                    ) {
                        (Some(q0), Some(q1), Some(q2), Some(q3), Some(q4), Some(q5)) => Some(
                            (q0, q1, q2, q3, q4, q5),
                        ),
                        _ => None,
                    }
                },
                _ => None,
            }
        },
        _ => None,
    }
}

/// A box: a composite list of the six face quads sharing one material.
#[verifier::rlimit(60)]
pub fn box_shape(a: Vector3, b: Vector3, mat: usize) -> (r: Option<Hittable>)
    ensures
        match box_quads_spec(a, b, mat) {
            Some(qs) => match r {
                Some(h) => match h {
                    Hittable::List(l) => l.objects@ =~= seq![
                        Hittable::Quad(qs.0),
                        Hittable::Quad(qs.1),
                        Hittable::Quad(qs.2),
                        Hittable::Quad(qs.3),
                        Hittable::Quad(qs.4),
                        Hittable::Quad(qs.5),
                    ],
                    _ => false,
                },
                None => false,
            },
            None => r is None,
        },
{
    let minx: i64 = if a.x < b.x { a.x } else { b.x };
    let miny: i64 = if a.y < b.y { a.y } else { b.y };
    let minz: i64 = if a.z < b.z { a.z } else { b.z };
    let maxx: i64 = if a.x > b.x { a.x } else { b.x };
    let maxy: i64 = if a.y > b.y { a.y } else { b.y };
    let maxz: i64 = if a.z > b.z { a.z } else { b.z };
    let ex: i64 = match sub_i64(maxx, minx) {
        Some(x) => x,
        None => { return None; },
    };
    let ey: i64 = match sub_i64(maxy, miny) {
        Some(x) => x,
        None => { return None; },
    };
    let ez: i64 = match sub_i64(maxz, minz) {
        Some(x) => x,
        None => { return None; },
    };
    let dx = Vector3 { x: ex, y: 0, z: 0 };
    let dy = Vector3 { x: 0, y: ey, z: 0 };
    let dz = Vector3 { x: 0, y: 0, z: ez };
    let ndx: Vector3 = match dx.neg() {
        Some(x) => x,
        None => { return None; },
    };
    let ndz: Vector3 = match dz.neg() {
        Some(x) => x,
        None => { return None; },
    };
    let q0: Quad = match Quad::new(Vector3 { x: minx, y: miny, z: maxz }, dx, dy, mat) {
        Some(x) => x,
        None => { return None; },
    };
    let q1: Quad = match Quad::new(Vector3 { x: maxx, y: miny, z: maxz }, ndz, dy, mat) {
        Some(x) => x,
        None => { return None; },
    };
    let q2: Quad = match Quad::new(Vector3 { x: maxx, y: miny, z: minz }, ndx, dy, mat) {
        Some(x) => x,
        None => { return None; },
    };
    let q3: Quad = match Quad::new(Vector3 { x: minx, y: miny, z: minz }, dz, dy, mat) {
        Some(x) => x,
        None => { return None; },
    };
    let q4: Quad = match Quad::new(Vector3 { x: minx, y: maxy, z: maxz }, dx, ndz, mat) {
        Some(x) => x,
        None => { return None; },
    };
    let q5: Quad = match Quad::new(Vector3 { x: minx, y: miny, z: minz }, dx, dz, mat) {
        Some(x) => x,
        None => { return None; },
    };
    let mut sides: HittableList = HittableList::new();
    sides.add(Hittable::Quad(q0));
    sides.add(Hittable::Quad(q1));
    sides.add(Hittable::Quad(q2));
    sides.add(Hittable::Quad(q3));
    sides.add(Hittable::Quad(q4));
    sides.add(Hittable::Quad(q5));
    Some(Hittable::List(sides))
}

} // verus!
