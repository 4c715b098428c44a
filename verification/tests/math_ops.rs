//! Fixed-point scalar arithmetic, trigonometry, and tone mapping.

use ray_tracer::math::{
    fx_mul, fx_div, fx_sqrt, add_i64, sub_i64, mul_i64, clamp_fx, degrees_to_radians, reflectance,
    random, random_float, random_int, sin_fx, cos_fx, ONE, PI_FX, HALF_PI_FX,
};
use ray_tracer::color::convert_to_rgb;
use ray_tracer::vec3::Vector3;

#[test]
fn fx_mul_exact_and_truncated() {
    assert_eq!(fx_mul(3 * ONE, 2 * ONE), Some(6 * ONE));
    assert_eq!(fx_mul(1, 1), Some(0));
    assert_eq!(fx_mul(-3 * ONE, 2 * ONE), Some(-6 * ONE));
    assert_eq!(fx_mul(i64::MAX, i64::MAX), None);
}

#[test]
fn fx_div_exact_and_degenerate() {
    assert_eq!(fx_div(ONE, 2 * ONE), Some(ONE / 2));
    assert_eq!(fx_div(ONE, 0), None);
    assert_eq!(fx_div(-ONE, 2 * ONE), Some(-ONE / 2));
}

#[test]
fn fx_sqrt_squares() {
    assert_eq!(fx_sqrt(ONE), ONE);
    assert_eq!(fx_sqrt(4 * ONE), 2 * ONE);
    assert_eq!(fx_sqrt(0), 0);
    // sqrt(1/2) = 46340/65536 since 46340^2 <= 2^31 < 46341^2
    assert_eq!(fx_sqrt(ONE / 2), 46340);
}

#[test]
fn checked_add_sub_mul() {
    assert_eq!(add_i64(i64::MAX, 1), None);
    assert_eq!(add_i64(1, 2), Some(3));
    assert_eq!(sub_i64(i64::MIN, 1), None);
    assert_eq!(sub_i64(5, 7), Some(-2));
    assert_eq!(mul_i64(1 << 40, 1 << 40), None);
    assert_eq!(mul_i64(12, -12), Some(-144));
}

#[test]
fn clamp_behaviour() {
    assert_eq!(clamp_fx(5, 0, 10), 5);
    assert_eq!(clamp_fx(-5, 0, 10), 0);
    assert_eq!(clamp_fx(15, 0, 10), 10);
}

#[test]
fn degrees_conversion() {
    // 180 degrees is pi: 11796480 * 205887 / 11796480 = 205887
    assert_eq!(degrees_to_radians(180 * ONE), PI_FX);
    assert_eq!(degrees_to_radians(0), 0);
    assert_eq!(degrees_to_radians(-180 * ONE), -PI_FX);
}

#[test]
fn trig_values() {
    assert_eq!(sin_fx(0), 0);
    assert_eq!(cos_fx(0), ONE);
    let s = sin_fx(HALF_PI_FX);
    assert!(s > 65400 && s <= ONE, "sin(pi/2) was {s}");
    let c = cos_fx(PI_FX);
    assert!(c < -65400 && c >= -ONE - 200, "cos(pi) was {c}");
    let c2 = cos_fx(HALF_PI_FX);
    assert!(c2.abs() < 200, "cos(pi/2) was {c2}");
}

#[test]
fn schlick_at_normal_incidence() {
    // index 1.5: r0 = ((1 - 1.5)/(1 + 1.5))^2 = 0.04, and 0.04 * 65536 = 2621.44
    let idx = 3 * ONE / 2;
    assert_eq!(reflectance(ONE, idx), Some(2621));
    // index 1: r0 = 0, so reflectance at cos 1 is exactly 0
    assert_eq!(reflectance(ONE, ONE), Some(0));
}

#[test]
fn random_ranges() {
    for _ in 0..32 {
        let f = random_float();
        assert!((0..ONE).contains(&f));
        let r = random(-ONE, ONE);
        assert!((-ONE..=ONE).contains(&r));
        let i = random_int(0, 10 * ONE);
        assert!((0..=11).contains(&i));
    }
}

#[test]
fn tone_mapping_channels() {
    // background 0.5: sqrt(0.5) = 46340/65536, scaled by 255.999 truncates to 181
    assert_eq!(
        convert_to_rgb(Vector3 { x: ONE / 2, y: ONE / 2, z: ONE / 2 }),
        (181, 181, 181)
    );
    assert_eq!(convert_to_rgb(Vector3 { x: 0, y: 0, z: 0 }), (0, 0, 0));
    assert_eq!(convert_to_rgb(Vector3 { x: -ONE, y: 0, z: 0 }), (0, 0, 0));
    assert_eq!(convert_to_rgb(Vector3 { x: ONE, y: ONE, z: ONE }), (255, 255, 255));
    assert_eq!(convert_to_rgb(Vector3 { x: 100 * ONE, y: ONE, z: 0 }), (255, 255, 0));
}
