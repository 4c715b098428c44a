//! Materials, the integrator, and the camera.

use ray_tracer::math::ONE;
use ray_tracer::vec3::Vector3;
use ray_tracer::ray::Ray;
use ray_tracer::objects::global::{HitRecord, Hittable, HittableList};
use ray_tracer::objects::sphere::Sphere;
use ray_tracer::materials::material::{Lambertian, Material, ScatterSample};
use ray_tracer::materials::metal::Metal;
use ray_tracer::materials::dielectric::Dielectric;
use ray_tracer::materials::diffuse_light::DiffuseLight;
use ray_tracer::camera::{Camera, CameraError};

fn v(x: i64, y: i64, z: i64) -> Vector3 {
    Vector3 { x, y, z }
}

fn front_record(point: Vector3, normal: Vector3) -> HitRecord {
    HitRecord { point, normal, mat: 0, t: ONE, front_face: true, u: 0, v: 0 }
}

fn sample(unit: Vector3, uniform: i64) -> ScatterSample {
    ScatterSample { unit, uniform }
}

#[test]
fn lambertian_scatters_about_normal() {
    let m = Material::Lambertian(Lambertian::new(v(ONE / 2, ONE / 4, ONE / 8)));
    let rec = front_record(v(0, 0, -2 * ONE), v(0, 0, ONE));
    let ray = Ray::new(v(0, 0, 0), v(0, 0, -ONE));
    let (att, scattered) = m.scatter(ray, &rec, &sample(v(0, 0, ONE), 0)).unwrap();
    assert_eq!(att, v(ONE / 2, ONE / 4, ONE / 8));
    assert_eq!(scattered.origin, rec.point);
    assert_eq!(scattered.direction, v(0, 0, 2 * ONE));
}

#[test]
fn lambertian_degenerate_sum_falls_back_to_normal() {
    let m = Material::Lambertian(Lambertian::new(v(ONE, ONE, ONE)));
    let rec = front_record(v(0, 0, 0), v(0, 0, ONE));
    let ray = Ray::new(v(0, 0, 0), v(0, 0, -ONE));
    let (_, scattered) = m.scatter(ray, &rec, &sample(v(0, 0, -ONE), 0)).unwrap();
    assert_eq!(scattered.direction, v(0, 0, ONE));
}

#[test]
fn metal_clamps_roughness() {
    assert_eq!(Metal::new(v(ONE, ONE, ONE), 3 * ONE).fuzziness, ONE);
    assert_eq!(Metal::new(v(ONE, ONE, ONE), -ONE).fuzziness, 0);
    assert_eq!(Metal::new(v(ONE, ONE, ONE), ONE / 2).fuzziness, ONE / 2);
}

#[test]
fn metal_reflects() {
    let m = Material::Metal(Metal::new(v(ONE, ONE / 2, 0), 0));
    let rec = front_record(v(0, 0, -2 * ONE), v(0, 0, ONE));
    let ray = Ray::new(v(0, 0, 0), v(0, 0, -ONE));
    let (att, scattered) = m.scatter(ray, &rec, &sample(v(0, ONE, 0), 0)).unwrap();
    assert_eq!(att, v(ONE, ONE / 2, 0));
    assert_eq!(scattered.direction, v(0, 0, ONE));
}

#[test]
fn dielectric_index_one_refracts_straight_through() {
    let m = Material::Dielectric(Dielectric::new(ONE));
    let rec = front_record(v(0, 0, -2 * ONE), v(0, 0, ONE));
    let ray = Ray::new(v(0, 0, 0), v(0, 0, -ONE));
    let (att, scattered) = m.scatter(ray, &rec, &sample(v(0, 0, 0), 0)).unwrap();
    assert_eq!(att, v(ONE, ONE, ONE));
    assert_eq!(scattered.direction, v(0, 0, -ONE));
}

#[test]
fn dielectric_total_internal_reflection() {
    // leaving glass (back face, effective index 1.5) at a grazing angle
    let m = Material::Dielectric(Dielectric::new(3 * ONE / 2));
    let mut rec = front_record(v(0, 0, 0), v(0, 0, ONE));
    rec.front_face = false;
    let ray = Ray::new(v(0, 0, 0), v(ONE, 0, -1000));
    let (_, scattered) = m.scatter(ray, &rec, &sample(v(0, 0, 0), ONE - 1)).unwrap();
    // reflected: the vertical component flips sign
    assert!(scattered.direction.z > 0);
}

#[test]
fn diffuse_light_never_scatters_and_emits_constantly() {
    let m = Material::DiffuseLight(DiffuseLight::new(v(4 * ONE, 3 * ONE, 2 * ONE)));
    let rec = front_record(v(0, 0, 0), v(0, 0, ONE));
    let ray = Ray::new(v(0, 0, 0), v(0, 0, -ONE));
    for k in 0..8 {
        let s = sample(v(0, 0, ONE), k * 8192);
        assert!(m.scatter(ray, &rec, &s).is_none());
    }
    let e1 = m.color_emitted(0, 0, v(0, 0, 0));
    let e2 = m.color_emitted(ONE / 2, ONE / 3, v(9 * ONE, -ONE, 5));
    assert_eq!(e1, v(4 * ONE, 3 * ONE, 2 * ONE));
    assert_eq!(e1, e2);
}

fn test_camera(samples: i64, background: Vector3) -> Result<Camera, CameraError> {
    Camera::new(
        90 * ONE,
        1,
        v(0, 0, 0),
        v(0, 0, -ONE),
        v(0, ONE, 0),
        ONE,
        samples,
        10,
        0,
        ONE,
        background,
        ONE,
    )
}

#[test]
fn camera_rejects_bad_configuration() {
    let bg = v(0, 0, 0);
    let bad_aspect = Camera::new(
        90 * ONE, 100, v(0, 0, 0), v(0, 0, -ONE), v(0, ONE, 0), 0, 1, 10, 0, ONE, bg, ONE,
    );
    assert!(matches!(bad_aspect, Err(CameraError::NonPositiveAspectRatio)));
    let bad_samples = Camera::new(
        90 * ONE, 100, v(0, 0, 0), v(0, 0, -ONE), v(0, ONE, 0), ONE, 0, 10, 0, ONE, bg, ONE,
    );
    assert!(matches!(bad_samples, Err(CameraError::NonPositiveSampleCount)));
    let bad_focus = Camera::new(
        90 * ONE, 100, v(0, 0, 0), v(0, 0, -ONE), v(0, ONE, 0), ONE, 1, 10, 0, -ONE, bg, ONE,
    );
    assert!(matches!(bad_focus, Err(CameraError::NonPositiveFocusDistance)));
    let degenerate = Camera::new(
        90 * ONE, 100, v(0, 0, 0), v(0, 0, 0), v(0, ONE, 0), ONE, 1, 10, 0, ONE, bg, ONE,
    );
    assert!(matches!(degenerate, Err(CameraError::Degenerate)));
}

#[test]
fn camera_derives_view_basis() {
    let cam = Camera::new(
        90 * ONE,
        100,
        v(0, 0, 0),
        v(0, 0, -ONE),
        v(0, ONE, 0),
        ONE,
        1,
        10,
        0,
        ONE,
        v(0, 0, 0),
        ONE,
    )
    .unwrap();
    assert_eq!(cam.image_height, 100);
    assert_eq!(cam.w, v(0, 0, ONE));
    assert_eq!(cam.u, v(ONE, 0, 0));
    assert_eq!(cam.v, v(0, ONE, 0));
    assert_eq!(cam.center, v(0, 0, 0));
}

#[test]
fn empty_scene_integrates_to_background() {
    let bg = v(ONE / 4, ONE / 2, ONE / 8);
    let cam = test_camera(1, bg).unwrap();
    let world = HittableList::new();
    let materials: Vec<Material> = Vec::new();
    for dz in 1..5 {
        let ray = Ray::new(v(0, 0, 0), v(0, dz * 100, -dz * ONE));
        assert_eq!(cam.ray_color(ray, 7, &world, &materials), bg);
    }
}

#[test]
fn depth_exhaustion_is_black() {
    let cam = test_camera(1, v(ONE, ONE, ONE)).unwrap();
    let world = HittableList::new();
    let materials: Vec<Material> = Vec::new();
    let ray = Ray::new(v(0, 0, 0), v(0, 0, -ONE));
    assert_eq!(cam.ray_color(ray, 0, &world, &materials), v(0, 0, 0));
}

#[test]
fn emissive_hit_returns_emission() {
    let cam = test_camera(1, v(0, 0, 0)).unwrap();
    let mut world = HittableList::new();
    world.add(Hittable::Sphere(Sphere::new(v(0, 0, -3 * ONE), ONE, 0)));
    let materials = vec![Material::DiffuseLight(DiffuseLight::new(v(2 * ONE, ONE, ONE / 2)))];
    let ray = Ray::new(v(0, 0, 0), v(0, 0, -ONE));
    assert_eq!(cam.ray_color(ray, 7, &world, &materials), v(2 * ONE, ONE, ONE / 2));
}

#[test]
fn scatter_with_exhausted_budget_adds_no_light() {
    // at depth one the scattered estimate is the depth-zero black, so a
    // non-emissive hit is black whatever the random scatter direction
    let cam = test_camera(1, v(ONE, ONE, ONE)).unwrap();
    let mut world = HittableList::new();
    world.add(Hittable::Sphere(Sphere::new(v(0, 0, -3 * ONE), ONE, 0)));
    let materials = vec![Material::Lambertian(Lambertian::new(v(ONE / 2, ONE / 2, ONE / 2)))];
    let ray = Ray::new(v(0, 0, 0), v(0, 0, -ONE));
    assert_eq!(cam.ray_color(ray, 1, &world, &materials), v(0, 0, 0));
}

#[test]
fn out_of_range_material_handle_is_black() {
    let cam = test_camera(1, v(ONE, ONE, ONE)).unwrap();
    let mut world = HittableList::new();
    world.add(Hittable::Sphere(Sphere::new(v(0, 0, -3 * ONE), ONE, 5)));
    let materials: Vec<Material> = Vec::new();
    let ray = Ray::new(v(0, 0, 0), v(0, 0, -ONE));
    assert_eq!(cam.ray_color(ray, 9, &world, &materials), v(0, 0, 0));
}

#[test]
fn one_pixel_render_of_empty_scene() {
    // background 0.5 gray at brightness one: sqrt(0.5) * 255.999 truncates to 181
    let cam = test_camera(1, v(ONE / 2, ONE / 2, ONE / 2)).unwrap();
    let world = HittableList::new();
    let materials: Vec<Material> = Vec::new();
    let pixels = cam.render(&world, &materials);
    assert_eq!(pixels, vec![(181, 181, 181)]);
}

#[test]
fn render_buffer_has_one_entry_per_pixel() {
    let cam = Camera::new(
        90 * ONE,
        4,
        v(0, 0, 0),
        v(0, 0, -ONE),
        v(0, ONE, 0),
        2 * ONE,
        1,
        2,
        0,
        ONE,
        v(0, 0, 0),
        ONE,
    )
    .unwrap();
    assert_eq!(cam.image_height, 2);
    let world = HittableList::new();
    let materials: Vec<Material> = Vec::new();
    assert_eq!(cam.render(&world, &materials).len(), 8);
}
