//! Vectors, rays, intervals, and the geometry nodes.

use ray_tracer::math::ONE;
use ray_tracer::vec3::{Vector3, reflect, refract, near_zero, random_unit_vector, random_in_unit_disk};
use ray_tracer::ray::{Ray, Interval, new_interval, expand};
use ray_tracer::objects::global::{Hittable, HittableList};
use ray_tracer::objects::sphere::Sphere;
use ray_tracer::objects::quad::{Quad, box_shape};
use ray_tracer::objects::cylinder::Cylinder;
use ray_tracer::instances::translate::Translate;
use ray_tracer::instances::rotate::Rotate;

fn v(x: i64, y: i64, z: i64) -> Vector3 {
    Vector3 { x, y, z }
}

#[test]
fn vector_products() {
    let a = v(ONE, 2 * ONE, 3 * ONE);
    let b = v(4 * ONE, 5 * ONE, 6 * ONE);
    assert_eq!(a.dot(b), Some(32 * ONE));
    assert_eq!(
        v(ONE, 0, 0).cross(v(0, ONE, 0)),
        Some(v(0, 0, ONE))
    );
    assert_eq!(a.add(b), Some(v(5 * ONE, 7 * ONE, 9 * ONE)));
    assert_eq!(a.sub(b), Some(v(-3 * ONE, -3 * ONE, -3 * ONE)));
    assert_eq!(a.scale(2 * ONE), Some(v(2 * ONE, 4 * ONE, 6 * ONE)));
}

#[test]
fn vector_normalize() {
    let a = v(3 * ONE, 4 * ONE, 0);
    assert_eq!(a.length(), Some(5 * ONE));
    // 3/5 and 4/5 truncate to 39321 and 52428
    assert_eq!(a.normalize(), Some(v(39321, 52428, 0)));
    assert_eq!(v(0, 0, 0).normalize(), None);
}

#[test]
fn near_zero_is_exact_zero() {
    assert!(near_zero(v(0, 0, 0)));
    assert!(!near_zero(v(1, 0, 0)));
}

#[test]
fn reflect_mirror_twice() {
    let d = v(ONE, -ONE, 0);
    let n = v(0, ONE, 0);
    let r = reflect(d, n).unwrap();
    assert_eq!(r, v(ONE, ONE, 0));
    // reflecting twice about the same normal reconstructs the vector
    assert_eq!(reflect(r, n), Some(d));
}

#[test]
fn refract_index_one_keeps_direction() {
    let n = v(0, 0, ONE);
    let uv = v(0, 0, -ONE);
    assert_eq!(refract(uv, n, ONE), Some(uv));
}

#[test]
fn random_samples_bounded() {
    for _ in 0..16 {
        let u = random_unit_vector();
        assert!(u.x.abs() <= 2 * ONE && u.y.abs() <= 2 * ONE && u.z.abs() <= 2 * ONE);
        let d = random_in_unit_disk();
        assert!(d.z == 0 && d.x.abs() <= ONE && d.y.abs() <= ONE);
    }
}

#[test]
fn interval_operations() {
    let i = Interval::new(0, 10 * ONE);
    assert!(i.contains(0));
    assert!(i.contains(10 * ONE - 1));
    assert!(!i.contains(10 * ONE));
    assert!(!i.contains(-1));
    let j = new_interval(Interval::new(-ONE, ONE), Interval::new(0, 2 * ONE));
    assert_eq!((j.min, j.max), (-ONE, 2 * ONE));
    let e = expand(Interval::new(0, 10 * ONE), 2 * ONE).unwrap();
    assert_eq!((e.min, e.max), (-ONE, 11 * ONE));
}

#[test]
fn ray_evaluation() {
    let r = Ray::new(v(0, 0, ONE), v(0, 0, -ONE));
    assert_eq!(r.at(2 * ONE), Some(v(0, 0, -ONE)));
}

fn whole_line() -> Interval {
    Interval::new(65, i64::MAX)
}

#[test]
fn sphere_front_hit() {
    let s = Sphere::new(v(0, 0, -3 * ONE), ONE, 7);
    let ray = Ray::new(v(0, 0, 0), v(0, 0, -ONE));
    let rec = s.hit(ray, whole_line()).unwrap();
    assert_eq!(rec.t, 2 * ONE);
    assert_eq!(rec.point, v(0, 0, -2 * ONE));
    assert_eq!(rec.normal, v(0, 0, ONE));
    assert!(rec.front_face);
    assert_eq!(rec.mat, 7);
}

#[test]
fn sphere_miss_and_inside() {
    let s = Sphere::new(v(0, 0, -3 * ONE), ONE, 0);
    let away = Ray::new(v(0, 0, 0), v(0, 0, ONE));
    assert!(s.hit(away, whole_line()).is_none());
    // from the center the smaller root is behind the minimum: take the far side
    let from_center = Ray::new(v(0, 0, -3 * ONE), v(0, 0, -ONE));
    let rec = s.hit(from_center, whole_line()).unwrap();
    assert_eq!(rec.t, ONE);
    assert!(!rec.front_face);
    assert_eq!(rec.normal, v(0, 0, ONE));
}

#[test]
fn two_spheres_nearest_regardless_of_order() {
    let near = Sphere::new(v(0, 0, -3 * ONE), ONE, 1);
    let far = Sphere::new(v(0, 0, -6 * ONE), ONE, 2);
    let ray = Ray::new(v(0, 0, 0), v(0, 0, -ONE));
    let mut a = HittableList::new();
    a.add(Hittable::Sphere(near));
    a.add(Hittable::Sphere(far));
    let mut b = HittableList::new();
    b.add(Hittable::Sphere(far));
    b.add(Hittable::Sphere(near));
    let ra = a.hit(ray, whole_line()).unwrap();
    let rb = b.hit(ray, whole_line()).unwrap();
    assert_eq!(ra, rb);
    assert_eq!(ra.t, 2 * ONE);
    assert_eq!(ra.mat, 1);
}

#[test]
fn list_clear_empties() {
    let mut l = HittableList::new();
    l.add(Hittable::Sphere(Sphere::new(v(0, 0, -3 * ONE), ONE, 0)));
    let ray = Ray::new(v(0, 0, 0), v(0, 0, -ONE));
    assert!(l.hit(ray, whole_line()).is_some());
    l.clear();
    assert!(l.hit(ray, whole_line()).is_none());
}

#[test]
fn quad_center_hit() {
    let q = Quad::new(
        v(-ONE, -ONE, -2 * ONE),
        v(2 * ONE, 0, 0),
        v(0, 2 * ONE, 0),
        3,
    )
    .unwrap();
    let ray = Ray::new(v(0, 0, 0), v(0, 0, -ONE));
    let rec = q.hit(ray, whole_line()).unwrap();
    assert_eq!(rec.t, 2 * ONE);
    assert_eq!(rec.point, v(0, 0, -2 * ONE));
    assert_eq!(rec.normal, v(0, 0, ONE));
    assert!(rec.front_face);
    assert_eq!((rec.u, rec.v), (ONE / 2, ONE / 2));
}

#[test]
fn quad_parallel_and_exterior_miss() {
    let q = Quad::new(
        v(-ONE, -ONE, -2 * ONE),
        v(2 * ONE, 0, 0),
        v(0, 2 * ONE, 0),
        0,
    )
    .unwrap();
    let parallel = Ray::new(v(0, 0, 0), v(ONE, 0, 0));
    assert!(q.hit(parallel, whole_line()).is_none());
    let outside = Ray::new(v(5 * ONE, 0, 0), v(0, 0, -ONE));
    assert!(q.hit(outside, whole_line()).is_none());
    // degenerate edges give no quad at all
    assert!(Quad::new(v(0, 0, 0), v(ONE, 0, 0), v(2 * ONE, 0, 0), 0).is_none());
}

#[test]
fn box_shape_six_faces() {
    let b = box_shape(v(-ONE, -ONE, -3 * ONE), v(ONE, ONE, -2 * ONE), 4).unwrap();
    let ray = Ray::new(v(0, 0, 0), v(0, 0, -ONE));
    let rec = b.hit(ray, whole_line()).unwrap();
    assert_eq!(rec.t, 2 * ONE);
    assert_eq!(rec.normal, v(0, 0, ONE));
    assert_eq!(rec.mat, 4);
    // a flat box has degenerate faces
    assert!(box_shape(v(0, 0, 0), v(0, ONE, ONE), 0).is_none());
}

#[test]
fn cylinder_side_hit() {
    let c = Cylinder::new(v(0, 0, -3 * ONE), v(0, ONE, 0), ONE, ONE, 9);
    let ray = Ray::new(v(0, ONE / 2, 0), v(0, 0, -ONE));
    let rec = c.hit(ray, whole_line()).unwrap();
    assert_eq!(rec.t, 2 * ONE);
    assert_eq!(rec.point, v(0, ONE / 2, -2 * ONE));
    assert_eq!(rec.normal, v(0, 0, ONE));
    assert!(rec.front_face);
    assert_eq!(rec.mat, 9);
}

#[test]
fn cylinder_cap_hit() {
    // a steep, slightly tilted ray meets the base cap from below the lateral range
    let c = Cylinder::new(v(0, 0, 0), v(0, ONE, 0), ONE, ONE, 2);
    let ray = Ray::new(v(16384, 2 * ONE, 0), v(655, -ONE, 0));
    let rec = c.hit(ray, whole_line()).unwrap();
    assert_eq!(rec.t, 2 * ONE);
    assert_eq!(rec.point, v(17694, 0, 0));
    // the base normal -axis is struck from behind, so it is flipped
    assert_eq!(rec.normal, v(0, ONE, 0));
    assert!(!rec.front_face);
    assert_eq!(rec.mat, 2);
}

#[test]
fn translate_shifts_hit_point() {
    let s = Sphere::new(v(0, 0, 0), ONE, 5);
    let t = Translate::new(Box::new(Hittable::Sphere(s)), v(0, 0, -3 * ONE));
    let ray = Ray::new(v(0, 0, 0), v(0, 0, -ONE));
    let rec = t.hit(ray, whole_line()).unwrap();
    assert_eq!(rec.t, 2 * ONE);
    assert_eq!(rec.point, v(0, 0, -2 * ONE));
    assert_eq!(rec.normal, v(0, 0, ONE));
}

#[test]
fn rotate_zero_is_identity_on_translated_object() {
    let s = Sphere::new(v(0, 0, 0), ONE, 5);
    let t = Translate::new(Box::new(Hittable::Sphere(s)), v(0, 0, -3 * ONE));
    let direct = Hittable::Translate(t);
    let ray = Ray::new(v(0, 0, 0), v(0, 0, -ONE));
    let expected = direct.hit(ray, whole_line());
    let rot = Rotate::new(Box::new(direct), 0);
    let got = rot.hit(ray, whole_line());
    assert_eq!(got, expected);
    assert!(got.is_some());
    assert_eq!(got.unwrap().point, v(0, 0, -2 * ONE));
}
