//! Tone mapping: square-root gamma, clamping, and the 8-bit channel value.

use vstd::prelude::*;
use crate::math::{ONE, tdiv, fx_mul, fx_mul_spec, fx_sqrt, fx_sqrt_spec, clamp_spec, clamp_fx, div_scalar};
use crate::vec3::Vector3;

verus! {

/// `0.999` in fixed point: the top of the intensity clamp.
pub const INTENSITY_MAX: i64 = 65470;

/// `255.999` in fixed point: the channel scale.
pub const CHANNEL_SCALE: i64 = 16777150;

/// The square-root tone curve; nonpositive input maps to zero.
pub open spec fn linear_to_gamma_spec(linear: i64) -> i64 {
    if linear > 0 {
        fx_sqrt_spec(linear)
    } else {
        0
    }
}

fn linear_to_gamma(linear_component: i64) -> (r: i64)
    ensures
        r == linear_to_gamma_spec(linear_component),
        r >= 0,
{
    if linear_component > 0 {
        fx_sqrt(linear_component)
    } else {
        0
    }
}

/// One channel: gamma, clamp into `[0, 0.999]`, scale by `255.999`, truncate
/// to the integer part, saturate into the 8-bit range.
pub open spec fn channel_spec(c: i64) -> u8 {
    let g = linear_to_gamma_spec(c);
    let clamped = clamp_spec(g, 0, INTENSITY_MAX);
    match fx_mul_spec(clamped, CHANNEL_SCALE) {
        None => 0,
        Some(scaled) => {
            let q = tdiv(scaled as int, ONE as int);
            if q > 255 {
                255
            } else if q < 0 {
                0
            } else {
                q as u8
            }
        },
    }
}

fn channel(c: i64) -> (r: u8)
    ensures
        r == channel_spec(c),
{
    let g: i64 = linear_to_gamma(c);
    let clamped: i64 = clamp_fx(g, 0, 65470);
    match fx_mul(clamped, 16777150) {
        None => 0,
        Some(scaled) => {
            let q: i64 = div_scalar(scaled, 65536);
            if q > 255 {
                255
            } else if q < 0 {
                0
            } else {
                q as u8
            }
        },
    }
}

/// The tone-mapped RGB triple of a color.
pub open spec fn convert_to_rgb_spec(color: Vector3) -> (u8, u8, u8) {
    (channel_spec(color.x), channel_spec(color.y), channel_spec(color.z))
}

pub fn convert_to_rgb(color: Vector3) -> (r: (u8, u8, u8))
    ensures
        r == convert_to_rgb_spec(color),
{
    (channel(color.x), channel(color.y), channel(color.z))
}

} // verus!
