//! The intersection record and the polymorphic geometry node.
//!
//! Geometry is a closed set of variants: primitive shapes, a linear-scan
//! composite list, and two spatial-instance decorators; the variants form a
//! tree through the list and the decorators. Materials live in an arena
//! owned by the scene and are referenced by index.

use vstd::prelude::*;
use crate::vec3::{Vector3, dot_spec, v_neg_spec};
use crate::ray::{Ray, Interval, interval_contains};
use crate::objects::sphere::{Sphere, sphere_hit_spec};
use crate::objects::quad::{Quad, quad_hit_spec};
use crate::objects::cylinder::{Cylinder, cylinder_hit_spec};
use crate::instances::translate::{Translate, translate_hit_spec};
use crate::instances::rotate::{Rotate, rotate_hit_spec};

verus! {

/// The result of a successful intersection: point, oriented unit-ish normal,
/// material handle, parameter, face flag, and surface coordinates.
#[derive(Clone, Copy, PartialEq, Eq, Structural, Debug)]
pub struct HitRecord {
    pub point: Vector3,
    pub normal: Vector3,
    pub mat: usize,
    pub t: i64,
    pub front_face: bool,
    pub u: i64,
    pub v: i64,
}

pub open spec fn empty_hit_record() -> HitRecord {
    HitRecord {
        point: Vector3 { x: 0, y: 0, z: 0 },
        normal: Vector3 { x: 0, y: 0, z: 0 },
        mat: 0,
        t: 0,
        front_face: false,
        u: 0,
        v: 0,
    }
}

/// Orient the stored outward normal against the ray: the face flag is set
/// from the sign of `direction . normal`, and the normal is flipped when the
/// ray strikes the back face.
pub open spec fn set_face_normal_spec(rec: HitRecord, ray: Ray) -> Option<HitRecord> {
    match dot_spec(ray.direction, rec.normal) {
        None => None,
        Some(d) => if d < 0 {
            Some(
                HitRecord {
                    point: rec.point,
                    normal: rec.normal,
                    mat: rec.mat,
                    t: rec.t,
                    front_face: true,
                    u: rec.u,
                    v: rec.v,
                },
            )
        } else {
            match v_neg_spec(rec.normal) {
                None => None,
                Some(n) => Some(
                    HitRecord {
                        point: rec.point,
                        normal: n,
                        mat: rec.mat,
                        t: rec.t,
                        front_face: false,
                        u: rec.u,
                        v: rec.v,
                    },
                ),
            }
        },
    }
}

impl HitRecord {
    pub fn new() -> (r: HitRecord)
        ensures
            r == empty_hit_record(),
    {
        HitRecord {
            point: Vector3 { x: 0, y: 0, z: 0 },
            normal: Vector3 { x: 0, y: 0, z: 0 },
            mat: 0,
            t: 0,
            front_face: false,
            u: 0,
            v: 0,
        }
    }

    /// Orient the normal in place; `false` reports the degenerate dot
    /// product, leaving the record unchanged.
    pub fn set_face_normal(&mut self, ray: Ray) -> (ok: bool)
        ensures
            match set_face_normal_spec(*old(self), ray) {
                Some(r) => ok && *final(self) == r,
                None => !ok && *final(self) == *old(self),
            },
    {
        match ray.direction.dot(self.normal) {
            None => false,
            Some(d) => {
                if d < 0 {
                    self.front_face = true;
                    true
                } else {
                    match self.normal.neg() {
                        None => false,
                        Some(n) => {
                            self.normal = n;
                            self.front_face = false;
                            true
                        },
                    }
                }
            },
        }
    }
}

/// A geometry node: answers the nearest-intersection query over an interval.
pub enum Hittable {
    Sphere(Sphere),
    Quad(Quad),
    Cylinder(Cylinder),
    List(HittableList),
    Translate(Translate),
    Rotate(Rotate),
}

/// An ordered composite scanned linearly, keeping the nearest hit.
pub struct HittableList {
    pub objects: Vec<Hittable>,
}

/// What a geometry node answers for a ray over an interval.
pub open spec fn hittable_hit_spec(h: Hittable, ray: Ray, ray_t: Interval) -> Option<HitRecord>
    decreases h,
{
    match h {
        Hittable::Sphere(s) => sphere_hit_spec(s, ray, ray_t),
        Hittable::Quad(q) => quad_hit_spec(q, ray, ray_t),
        Hittable::Cylinder(c) => cylinder_hit_spec(c, ray, ray_t),
        Hittable::List(l) => list_hit_from_spec(l.objects@, 0, ray, ray_t.min, ray_t.max, None),
        Hittable::Translate(t) => translate_hit_spec(t, ray, ray_t),
        Hittable::Rotate(r) => rotate_hit_spec(r, ray, ray_t),
    }
}

/// One step of the linear scan: member `i` is queried over the interval
/// tightened to the closest hit seen so far, and a hit replaces the best.
pub open spec fn list_hit_from_spec(
    objs: Seq<Hittable>,
    i: int,
    ray: Ray,
    tmin: i64,
    closest: i64,
    best: Option<HitRecord>,
) -> Option<HitRecord>
    decreases objs, objs.len() - i,
{
    if i < 0 || i >= objs.len() {
        best
    } else {
        match hittable_hit_spec(objs[i], ray, Interval { min: tmin, max: closest }) {
            Some(rec) => list_hit_from_spec(objs, i + 1, ray, tmin, rec.t, Some(rec)),
            None => list_hit_from_spec(objs, i + 1, ray, tmin, closest, best),
        }
    }
}

/// An empty composite never reports a hit, for any ray and any interval;
/// with the integrator's contract this means an empty scene always yields
/// exactly the background color at any positive depth.
pub proof fn lemma_empty_list_misses(objs: Seq<Hittable>, ray: Ray, tmin: i64, tmax: i64)
    requires
        objs.len() == 0,
    ensures
        list_hit_from_spec(objs, 0, ray, tmin, tmax, None) is None,
{
}

proof fn lemma_pair_near_first(
    sa: Sphere,
    sb: Sphere,
    ray: Ray,
    ray_t: Interval,
    rca: HitRecord,
    rcb: HitRecord,
)
    requires
        sphere_hit_spec(sa, ray, ray_t) == Some(rca),
        sphere_hit_spec(sb, ray, ray_t) == Some(rcb),
        rca.t < rcb.t,
    ensures
        list_hit_from_spec(
            seq![Hittable::Sphere(sa), Hittable::Sphere(sb)],
            0,
            ray,
            ray_t.min,
            ray_t.max,
            None,
        ) == Some(rca),
{
    let objs = seq![Hittable::Sphere(sa), Hittable::Sphere(sb)];
    assert(objs[0] == Hittable::Sphere(sa));
    assert(objs[1] == Hittable::Sphere(sb));
    assert(Interval { min: ray_t.min, max: ray_t.max } == ray_t);
    crate::objects::sphere::lemma_sphere_t_in_interval(sa, ray, ray_t, rca);
    crate::objects::sphere::lemma_sphere_hit_narrow(sb, ray, ray_t.min, ray_t.max, rca.t, rcb);
    assert(sphere_hit_spec(sb, ray, Interval { min: ray_t.min, max: rca.t }) is None);
    assert(hittable_hit_spec(objs[0], ray, Interval { min: ray_t.min, max: ray_t.max })
        == sphere_hit_spec(sa, ray, ray_t));
    assert(hittable_hit_spec(objs[1], ray, Interval { min: ray_t.min, max: rca.t })
        == sphere_hit_spec(sb, ray, Interval { min: ray_t.min, max: rca.t }));
    assert(list_hit_from_spec(objs, 0, ray, ray_t.min, ray_t.max, None) == list_hit_from_spec(
        objs,
        1,
        ray,
        ray_t.min,
        rca.t,
        Some(rca),
    ));
    assert(list_hit_from_spec(objs, 1, ray, ray_t.min, rca.t, Some(rca)) == list_hit_from_spec(
        objs,
        2,
        ray,
        ray_t.min,
        rca.t,
        Some(rca),
    ));
    assert(list_hit_from_spec(objs, 2, ray, ray_t.min, rca.t, Some(rca)) == Some(rca));
}

proof fn lemma_pair_far_first(
    sa: Sphere,
    sb: Sphere,
    ray: Ray,
    ray_t: Interval,
    rca: HitRecord,
    rcb: HitRecord,
)
    requires
        sphere_hit_spec(sa, ray, ray_t) == Some(rca),
        sphere_hit_spec(sb, ray, ray_t) == Some(rcb),
        rcb.t < rca.t,
    ensures
        list_hit_from_spec(
            seq![Hittable::Sphere(sa), Hittable::Sphere(sb)],
            0,
            ray,
            ray_t.min,
            ray_t.max,
            None,
        ) == Some(rcb),
{
    let objs = seq![Hittable::Sphere(sa), Hittable::Sphere(sb)];
    assert(objs[0] == Hittable::Sphere(sa));
    assert(objs[1] == Hittable::Sphere(sb));
    assert(Interval { min: ray_t.min, max: ray_t.max } == ray_t);
    crate::objects::sphere::lemma_sphere_t_in_interval(sa, ray, ray_t, rca);
    crate::objects::sphere::lemma_sphere_t_in_interval(sb, ray, ray_t, rcb);
    crate::objects::sphere::lemma_sphere_hit_narrow(sb, ray, ray_t.min, ray_t.max, rca.t, rcb);
    assert(sphere_hit_spec(sb, ray, Interval { min: ray_t.min, max: rca.t }) == Some(rcb));
    assert(hittable_hit_spec(objs[0], ray, Interval { min: ray_t.min, max: ray_t.max })
        == sphere_hit_spec(sa, ray, ray_t));
    assert(hittable_hit_spec(objs[1], ray, Interval { min: ray_t.min, max: rca.t })
        == sphere_hit_spec(sb, ray, Interval { min: ray_t.min, max: rca.t }));
    assert(list_hit_from_spec(objs, 0, ray, ray_t.min, ray_t.max, None) == list_hit_from_spec(
        objs,
        1,
        ray,
        ray_t.min,
        rca.t,
        Some(rca),
    ));
    assert(list_hit_from_spec(objs, 1, ray, ray_t.min, rca.t, Some(rca)) == list_hit_from_spec(
        objs,
        2,
        ray,
        ray_t.min,
        rcb.t,
        Some(rcb),
    ));
    assert(list_hit_from_spec(objs, 2, ray, ray_t.min, rcb.t, Some(rcb)) == Some(rcb));
}

/// Two spheres hit by one ray at different parameters: the composite
/// returns the intersection with the smaller parameter, in either
/// registration order.
pub proof fn lemma_two_spheres_nearest(
    s1: Sphere,
    s2: Sphere,
    ray: Ray,
    ray_t: Interval,
    rc1: HitRecord,
    rc2: HitRecord,
)
    requires
        sphere_hit_spec(s1, ray, ray_t) == Some(rc1),
        sphere_hit_spec(s2, ray, ray_t) == Some(rc2),
        rc1.t != rc2.t,
    ensures
        list_hit_from_spec(
            seq![Hittable::Sphere(s1), Hittable::Sphere(s2)],
            0,
            ray,
            ray_t.min,
            ray_t.max,
            None,
        ) == list_hit_from_spec(
            seq![Hittable::Sphere(s2), Hittable::Sphere(s1)],
            0,
            ray,
            ray_t.min,
            ray_t.max,
            None,
        ),
        list_hit_from_spec(
            seq![Hittable::Sphere(s1), Hittable::Sphere(s2)],
            0,
            ray,
            ray_t.min,
            ray_t.max,
            None,
        ) == Some(
            if rc1.t < rc2.t {
                rc1
            } else {
                rc2
            },
        ),
{
    if rc1.t < rc2.t {
        lemma_pair_near_first(s1, s2, ray, ray_t, rc1, rc2);
        lemma_pair_far_first(s2, s1, ray, ray_t, rc2, rc1);
    } else {
        lemma_pair_far_first(s1, s2, ray, ray_t, rc1, rc2);
        lemma_pair_near_first(s2, s1, ray, ray_t, rc2, rc1);
    }
}

impl Hittable {
    /// The nearest intersection of the ray with this node inside `ray_t`,
    /// or `None` on a miss (any numeric degeneracy included).
    pub fn hit(&self, ray: Ray, ray_t: Interval) -> (r: Option<HitRecord>)
        ensures
            r == hittable_hit_spec(*self, ray, ray_t),
        decreases *self,
    {
        match self {
            Hittable::Sphere(s) => s.hit(ray, ray_t),
            Hittable::Quad(q) => q.hit(ray, ray_t),
            Hittable::Cylinder(c) => c.hit(ray, ray_t),
            Hittable::List(l) => l.hit(ray, ray_t),
            Hittable::Translate(t) => t.hit(ray, ray_t),
            Hittable::Rotate(r) => r.hit(ray, ray_t),
        }
    }
}

impl HittableList {
    pub fn new() -> (r: HittableList)
        ensures
            r.objects@ =~= Seq::<Hittable>::empty(),
    {
        HittableList { objects: Vec::new() }
    }

    pub fn add(&mut self, object: Hittable)
        ensures
            final(self).objects@ =~= old(self).objects@.push(object),
    {
        self.objects.push(object);
    }

    pub fn clear(&mut self)
        ensures
            final(self).objects@ =~= Seq::<Hittable>::empty(),
    {
        self.objects.clear();
    }

    /// The linear scan over the members in registration order.
    pub fn hit(&self, ray: Ray, ray_t: Interval) -> (r: Option<HitRecord>)
        ensures
            r == list_hit_from_spec(self.objects@, 0, ray, ray_t.min, ray_t.max, None),
        decreases *self,
    {
        let mut best: Option<HitRecord> = None;
        let mut closest: i64 = ray_t.max;
        let n: usize = self.objects.len();
        let mut i: usize = 0;
        while i < n
            invariant
                n == self.objects.len(),
                i <= n,
                list_hit_from_spec(self.objects@, i as int, ray, ray_t.min, closest, best)
                    == list_hit_from_spec(self.objects@, 0, ray, ray_t.min, ray_t.max, None),
            decreases n - i,
        {
            let obj = &self.objects[i];
            match obj.hit(ray, Interval { min: ray_t.min, max: closest }) {
                Some(rec) => {
                    closest = rec.t;
                    best = Some(rec);
                },
                None => {},
            }
            i = i + 1;
        }
        best
    }
}

} // verus!
