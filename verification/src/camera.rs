//! The camera: a validated configuration, the derived view basis and
//! viewport geometry, per-sample jittered (and optionally lens-sampled) ray
//! generation, the recursive radiance integrator, and the render loop.

use vstd::prelude::*;
use crate::math::{
    ONE, tdiv, abs_i, fx_mul, fx_mul_spec, fx_div, fx_div_spec, add_i64, add_i64_spec, mul_i64,
    mul_i64_spec, div_i128, div_scalar, degrees_to_radians, deg2rad_spec, sin_fx, spec_sin_fx,
    cos_fx, spec_cos_fx, random_float,
};
use crate::vec3::{
    Vector3, v_add_spec, v_sub_spec, v_scale_spec, v_neg_spec, v_div_spec, v_mul_spec,
    cross_spec, normalize_spec, length_squared_spec, random_in_unit_disk,
};
use crate::ray::{Ray, Interval};
use crate::objects::global::{Hittable, HittableList, HitRecord, list_hit_from_spec};
use crate::materials::material::{
    Material, ScatterSample, material_emitted_spec, material_scatter_spec, valid_scatter_sample,
};
use crate::color::{convert_to_rgb, convert_to_rgb_spec};

verus! {

/// The configuration faults rejected at construction.
#[derive(Clone, Copy, PartialEq, Eq, Structural, Debug)]
pub enum CameraError {
    NonPositiveAspectRatio,
    NonPositiveSampleCount,
    NonPositiveFocusDistance,
    Degenerate,
}

pub struct Camera {
    pub look_from: Vector3,
    pub look_at: Vector3,
    pub vup: Vector3,
    pub fov: i64,
    pub viewport_height: i64,
    pub u: Vector3,
    pub v: Vector3,
    pub w: Vector3,
    pub background: Vector3,
    pub image_width: i32,
    pub samples_per_pixel: i64,
    pub max_depth: i64,
    pub pixel_samples_scale: i64,
    pub image_height: i32,
    pub center: Vector3,
    pub pixel_delta_x: Vector3,
    pub pixel_delta_y: Vector3,
    pub first_pixel: Vector3,
    pub defocus_angle: i64,
    pub defocus_disk_u: Vector3,
    pub defocus_disk_v: Vector3,
    pub brightness: i64,
}

/// The image height: width over aspect ratio, truncated, saturated into the
/// 32-bit range, and at least one.
pub open spec fn image_height_spec(image_width: i32, aspect_ratio: i64) -> i32 {
    let h0 = tdiv(image_width as int * 65536, aspect_ratio as int);
    let h1 = if h0 > 2147483647 {
        2147483647
    } else {
        h0
    };
    if h1 < 1 {
        1
    } else {
        h1 as i32
    }
}

/// The fixed-point tangent: sine over cosine.
pub open spec fn tan_spec(angle: i64) -> Option<i64> {
    fx_div_spec(spec_sin_fx(angle), spec_cos_fx(angle))
}

/// The whole construction, mirroring every derived quantity; any range
/// degeneracy is a `Degenerate` configuration error.
pub open spec fn camera_new_spec(
    fov: i64,
    image_width: i32,
    look_from: Vector3,
    look_at: Vector3,
    vup: Vector3,
    aspect_ratio: i64,
    samples_per_pixel: i64,
    max_depth: i64,
    defocus_angle: i64,
    focus_dist: i64,
    background: Vector3,
    brightness: i64,
) -> Result<Camera, CameraError> {
    if aspect_ratio <= 0 {
        Err(CameraError::NonPositiveAspectRatio)
    } else if samples_per_pixel <= 0 {
        Err(CameraError::NonPositiveSampleCount)
    } else if focus_dist <= 0 {
        Err(CameraError::NonPositiveFocusDistance)
    } else {
        let image_height = image_height_spec(image_width, aspect_ratio);
        let theta = deg2rad_spec(fov);
        let half = tdiv(theta as int, 2) as i64;
        match tan_spec(half) {
            None => Err(CameraError::Degenerate),
            Some(h) => match fx_mul_spec(h, focus_dist) {
                None => Err(CameraError::Degenerate),
                Some(vh0) => match add_i64_spec(vh0, vh0) {
                    None => Err(CameraError::Degenerate),
                    Some(viewport_height) => {
                        let ratio = tdiv(image_width as int * 65536, image_height as int) as i64;
                        match fx_mul_spec(viewport_height, ratio) {
                            None => Err(CameraError::Degenerate),
                            Some(viewport_width) => match v_sub_spec(look_from, look_at) {
                                None => Err(CameraError::Degenerate),
                                Some(w0) => match normalize_spec(w0) {
                                    None => Err(CameraError::Degenerate),
                                    Some(w) => match cross_spec(vup, w) {
                                        None => Err(CameraError::Degenerate),
                                        Some(u0) => match normalize_spec(u0) {
                                            None => Err(CameraError::Degenerate),
                                            Some(u) => match cross_spec(w, u) {
                                                None => Err(CameraError::Degenerate),
                                                Some(v) => camera_viewport_spec(
                                                    fov,
                                                    image_width,
                                                    look_from,
                                                    look_at,
                                                    vup,
                                                    samples_per_pixel,
                                                    max_depth,
                                                    defocus_angle,
                                                    focus_dist,
                                                    background,
                                                    brightness,
                                                    image_height,
                                                    viewport_height,
                                                    viewport_width,
                                                    u,
                                                    v,
                                                    w,
                                                ),
                                            },
                                        },
                                    },
                                },
                            },
                        }
                    },
                },
            },
        }
    }
}

/// The viewport geometry, pixel steps, first-pixel center, sample scale and
/// lens-disk basis, continuing `camera_new_spec`.
pub open spec fn camera_viewport_spec(
    fov: i64,
    image_width: i32,
    look_from: Vector3,
    look_at: Vector3,
    vup: Vector3,
    samples_per_pixel: i64,
    max_depth: i64,
    defocus_angle: i64,
    focus_dist: i64,
    background: Vector3,
    brightness: i64,
    image_height: i32,
    viewport_height: i64,
    viewport_width: i64,
    u: Vector3,
    v: Vector3,
    w: Vector3,
) -> Result<Camera, CameraError> {
    match v_scale_spec(viewport_width, u) {
        None => Err(CameraError::Degenerate),
        Some(vx) => match v_neg_spec(v) {
            None => Err(CameraError::Degenerate),
            Some(nv) => match v_scale_spec(viewport_height, nv) {
                None => Err(CameraError::Degenerate),
                Some(vy) => match v_scale_spec(focus_dist, w) {
                    None => Err(CameraError::Degenerate),
                    Some(fw) => match v_sub_spec(look_from, fw) {
                        None => Err(CameraError::Degenerate),
                        Some(t0) => match v_div_spec(vx, 131072) {
                            None => Err(CameraError::Degenerate),
                            Some(vx2) => match v_sub_spec(t0, vx2) {
                                None => Err(CameraError::Degenerate),
                                Some(t1) => match v_div_spec(vy, 131072) {
                                    None => Err(CameraError::Degenerate),
                                    Some(vy2) => match v_sub_spec(t1, vy2) {
                                        None => Err(CameraError::Degenerate),
                                        Some(upper_left) => match mul_i64_spec(
                                            image_width as i64,
                                            65536,
                                        ) {
                                            None => Err(CameraError::Degenerate),
                                            Some(iwfx) => match v_div_spec(vx, iwfx) {
                                                None => Err(CameraError::Degenerate),
                                                Some(pdx) => match mul_i64_spec(
                                                    image_height as i64,
                                                    65536,
                                                ) {
                                                    None => Err(CameraError::Degenerate),
                                                    Some(ihfx) => match v_div_spec(vy, ihfx) {
                                                        None => Err(CameraError::Degenerate),
                                                        Some(pdy) => camera_finish_spec(
                                                            fov,
                                                            image_width,
                                                            look_from,
                                                            look_at,
                                                            vup,
                                                            samples_per_pixel,
                                                            max_depth,
                                                            defocus_angle,
                                                            focus_dist,
                                                            background,
                                                            brightness,
                                                            image_height,
                                                            viewport_height,
                                                            u,
                                                            v,
                                                            w,
                                                            upper_left,
                                                            pdx,
                                                            pdy,
                                                        ),
                                                    },
                                                },
                                            },
                                        },
                                    },
                                },
                            },
                        },
                    },
                },
            },
        },
    }
}

/// The last derived values: first pixel, sample scale, lens-disk basis.
pub open spec fn camera_finish_spec(
    fov: i64,
    image_width: i32,
    look_from: Vector3,
    look_at: Vector3,
    vup: Vector3,
    samples_per_pixel: i64,
    max_depth: i64,
    defocus_angle: i64,
    focus_dist: i64,
    background: Vector3,
    brightness: i64,
    image_height: i32,
    viewport_height: i64,
    u: Vector3,
    v: Vector3,
    w: Vector3,
    upper_left: Vector3,
    pdx: Vector3,
    pdy: Vector3,
) -> Result<Camera, CameraError> {
    match v_add_spec(pdx, pdy) {
        None => Err(CameraError::Degenerate),
        Some(sum) => match v_div_spec(sum, 131072) {
            None => Err(CameraError::Degenerate),
            Some(halfsum) => match v_add_spec(upper_left, halfsum) {
                None => Err(CameraError::Degenerate),
                Some(first_pixel) => match mul_i64_spec(samples_per_pixel, 65536) {
                    None => Err(CameraError::Degenerate),
                    Some(sfx) => match fx_div_spec(ONE, sfx) {
                        None => Err(CameraError::Degenerate),
                        Some(pixel_samples_scale) => {
                            let da2 = tdiv(defocus_angle as int, 2) as i64;
                            match tan_spec(deg2rad_spec(da2)) {
                                None => Err(CameraError::Degenerate),
                                Some(dtan) => match fx_mul_spec(focus_dist, dtan) {
                                    None => Err(CameraError::Degenerate),
                                    Some(defocus_radius) => match v_scale_spec(
                                        defocus_radius,
                                        u,
                                    ) {
                                        None => Err(CameraError::Degenerate),
                                        Some(defocus_disk_u) => match v_scale_spec(
                                            defocus_radius,
                                            v,
                                        ) {
                                            None => Err(CameraError::Degenerate),
                                            Some(defocus_disk_v) => Ok(
                                                Camera {
                                                    look_from,
                                                    look_at,
                                                    vup,
                                                    fov,
                                                    viewport_height,
                                                    u,
                                                    v,
                                                    w,
                                                    background,
                                                    image_width,
                                                    samples_per_pixel,
                                                    max_depth,
                                                    pixel_samples_scale,
                                                    image_height,
                                                    center: look_from,
                                                    pixel_delta_x: pdx,
                                                    pixel_delta_y: pdy,
                                                    first_pixel,
                                                    defocus_angle,
                                                    defocus_disk_u,
                                                    defocus_disk_v,
                                                    brightness,
                                                },
                                            ),
                                        },
                                    },
                                },
                            }
                        },
                    },
                },
            },
        },
    }
}

impl Camera {
    #[verifier::rlimit(100)]
    pub fn new(
        fov: i64,
        image_width: i32,
        look_from: Vector3,
        look_at: Vector3,
        vup: Vector3,
        aspect_ratio: i64,
        samples_per_pixel: i64,
        max_depth: i64,
        defocus_angle: i64,
        focus_dist: i64,
        background: Vector3,
        brightness: i64,
    ) -> (r: Result<Camera, CameraError>)
        ensures
            r == camera_new_spec(
                fov,
                image_width,
                look_from,
                look_at,
                vup,
                aspect_ratio,
                samples_per_pixel,
                max_depth,
                defocus_angle,
                focus_dist,
                background,
                brightness,
            ),
    {
        if aspect_ratio <= 0 {
            return Err(CameraError::NonPositiveAspectRatio);
        }
        if samples_per_pixel <= 0 {
            return Err(CameraError::NonPositiveSampleCount);
        }
        if focus_dist <= 0 {
            return Err(CameraError::NonPositiveFocusDistance);
        }
        let h128: i128 = div_i128((image_width as i128) * 65536, aspect_ratio as i128);
        let h64: i64 = h128 as i64;
        let image_height: i32 = if h64 > 2147483647 {
            2147483647
        } else if h64 < 1 {
            1
        } else {
            h64 as i32
        };
        let theta: i64 = degrees_to_radians(fov);
        let half: i64 = div_scalar(theta, 2);
        let h: i64 = match fx_div(sin_fx(half), cos_fx(half)) {
            Some(x) => x,
            None => { return Err(CameraError::Degenerate); },
        };
        let vh0: i64 = match fx_mul(h, focus_dist) {
            Some(x) => x,
            None => { return Err(CameraError::Degenerate); },
        };
        let viewport_height: i64 = match add_i64(vh0, vh0) {
            Some(x) => x,
            None => { return Err(CameraError::Degenerate); },
        };
        let ratio128: i128 = div_i128((image_width as i128) * 65536, image_height as i128);
        let ratio: i64 = ratio128 as i64;
        let viewport_width: i64 = match fx_mul(viewport_height, ratio) {
            Some(x) => x,
            None => { return Err(CameraError::Degenerate); },
        };
        let w0: Vector3 = match look_from.sub(look_at) {
            Some(x) => x,
            None => { return Err(CameraError::Degenerate); },
        };
        let w: Vector3 = match w0.normalize() {
            Some(x) => x,
            None => { return Err(CameraError::Degenerate); },
        };
        let u0: Vector3 = match vup.cross(w) {
            Some(x) => x,
            None => { return Err(CameraError::Degenerate); },
        };
        let u: Vector3 = match u0.normalize() {
            Some(x) => x,
            None => { return Err(CameraError::Degenerate); },
        };
        let v: Vector3 = match w.cross(u) {
            Some(x) => x,
            None => { return Err(CameraError::Degenerate); },
        };
        let vx: Vector3 = match u.scale(viewport_width) {
            Some(x) => x,
            None => { return Err(CameraError::Degenerate); },
        };
        let nv: Vector3 = match v.neg() {
            Some(x) => x,
            None => { return Err(CameraError::Degenerate); },
        };
        let vy: Vector3 = match nv.scale(viewport_height) {
            Some(x) => x,
            None => { return Err(CameraError::Degenerate); },
        };
        let fw: Vector3 = match w.scale(focus_dist) {
            Some(x) => x,
            None => { return Err(CameraError::Degenerate); },
        };
        let t0: Vector3 = match look_from.sub(fw) {
            Some(x) => x,
            None => { return Err(CameraError::Degenerate); },
        };
        let vx2: Vector3 = match vx.div(131072) {
            Some(x) => x,
            None => { return Err(CameraError::Degenerate); },
        };
        let t1: Vector3 = match t0.sub(vx2) {
            Some(x) => x,
            None => { return Err(CameraError::Degenerate); },
        };
        let vy2: Vector3 = match vy.div(131072) {
            Some(x) => x,
            None => { return Err(CameraError::Degenerate); },
        };
        let upper_left: Vector3 = match t1.sub(vy2) {
            Some(x) => x,
            None => { return Err(CameraError::Degenerate); },
        };
        let iwfx: i64 = match mul_i64(image_width as i64, 65536) {
            Some(x) => x,
            None => { return Err(CameraError::Degenerate); },
        };
        let pdx: Vector3 = match vx.div(iwfx) {
            Some(x) => x,
            None => { return Err(CameraError::Degenerate); },
        };
        let ihfx: i64 = match mul_i64(image_height as i64, 65536) {
            Some(x) => x,
            None => { return Err(CameraError::Degenerate); },
        };
        let pdy: Vector3 = match vy.div(ihfx) {
            Some(x) => x,
            None => { return Err(CameraError::Degenerate); },
        };
        let sum: Vector3 = match pdx.add(pdy) {
            Some(x) => x,
            None => { return Err(CameraError::Degenerate); },
        };
        let halfsum: Vector3 = match sum.div(131072) {
            Some(x) => x,
            None => { return Err(CameraError::Degenerate); },
        };
        let first_pixel: Vector3 = match upper_left.add(halfsum) {
            Some(x) => x,
            None => { return Err(CameraError::Degenerate); },
        };
        let sfx: i64 = match mul_i64(samples_per_pixel, 65536) {
            Some(x) => x,
            None => { return Err(CameraError::Degenerate); },
        };
        let pixel_samples_scale: i64 = match fx_div(65536, sfx) {
            Some(x) => x,
            None => { return Err(CameraError::Degenerate); },
        };
        let da2: i64 = div_scalar(defocus_angle, 2);
        let drad: i64 = degrees_to_radians(da2);
        let dtan: i64 = match fx_div(sin_fx(drad), cos_fx(drad)) {
            Some(x) => x,
            None => { return Err(CameraError::Degenerate); },
        };
        let defocus_radius: i64 = match fx_mul(focus_dist, dtan) {
            Some(x) => x,
            None => { return Err(CameraError::Degenerate); },
        };
        let defocus_disk_u: Vector3 = match u.scale(defocus_radius) {
            Some(x) => x,
            None => { return Err(CameraError::Degenerate); },
        };
        let defocus_disk_v: Vector3 = match v.scale(defocus_radius) {
            Some(x) => x,
            None => { return Err(CameraError::Degenerate); },
        };
        Ok(
            Camera {
                look_from,
                look_at,
                vup,
                fov,
                viewport_height,
                u,
                v,
                w,
                background,
                image_width,
                samples_per_pixel,
                max_depth,
                pixel_samples_scale,
                image_height,
                center: look_from,
                pixel_delta_x: pdx,
                pixel_delta_y: pdy,
                first_pixel,
                defocus_angle,
                defocus_disk_u,
                defocus_disk_v,
                brightness,
            },
        )
    }
}

/// A box-filter jitter offset lies in `[-1/2, 1/2)`.
pub open spec fn offset_ok(o: i64) -> bool {
    -32768 <= o < 32768
}

/// A lens-disk sample: a point of the `x`/`y` plane strictly inside the
/// unit disk (squared length below one).
pub open spec fn disk_ok(d: Vector3) -> bool {
    abs_i(d.x as int) <= ONE && abs_i(d.y as int) <= ONE && d.z == 0 && (match length_squared_spec(
        d,
    ) {
        Some(l) => l < ONE,
        None => false,
    })
}

/// The lens origin: the camera center pushed along the disk basis.
pub open spec fn defocus_disk_sample_spec(cam: Camera, p: Vector3) -> Option<Vector3> {
    match v_scale_spec(p.x, cam.defocus_disk_u) {
        None => None,
        Some(a) => match v_scale_spec(p.y, cam.defocus_disk_v) {
            None => None,
            Some(b) => match v_add_spec(cam.center, a) {
                None => None,
                Some(s0) => v_add_spec(s0, b),
            },
        },
    }
}

/// The sample ray for pixel `(i, j)` given the jitter offsets and the lens
/// sample: the viewport sample point minus the chosen origin.
pub open spec fn get_ray_at_spec(
    cam: Camera,
    i: i32,
    j: i32,
    ox: i64,
    oy: i64,
    disk: Vector3,
) -> Option<Ray> {
    let ifx = (i as int * 65536 + ox as int) as i64;
    let jfx = (j as int * 65536 + oy as int) as i64;
    match v_scale_spec(ifx, cam.pixel_delta_x) {
        None => None,
        Some(a) => match v_scale_spec(jfx, cam.pixel_delta_y) {
            None => None,
            Some(b) => match v_add_spec(cam.first_pixel, a) {
                None => None,
                Some(p0) => match v_add_spec(p0, b) {
                    None => None,
                    Some(pixel_sample) => {
                        let origin_opt = if cam.defocus_angle <= 0 {
                            Some(cam.center)
                        } else {
                            defocus_disk_sample_spec(cam, disk)
                        };
                        match origin_opt {
                            None => None,
                            Some(origin) => match v_sub_spec(pixel_sample, origin) {
                                None => None,
                                Some(direction) => Some(Ray { origin, direction }),
                            },
                        }
                    },
                },
            },
        },
    }
}

/// What a scattering hit contributes: the emission plus the attenuated
/// recursive estimate, falling back to the emission alone when a product or
/// sum leaves the numeric range.
pub open spec fn scatter_contribution_spec(
    emission: Vector3,
    attenuation: Vector3,
    estimate: Vector3,
) -> Vector3 {
    match v_mul_spec(attenuation, estimate) {
        None => emission,
        Some(cs) => match v_add_spec(emission, cs) {
            None => emission,
            Some(total) => total,
        },
    }
}

/// `est` is a possible radiance estimate for `ray` at the given remaining
/// depth, against the given geometry and material arena: exhausted depth is
/// black; a miss is the background; an out-of-range handle is black; a hit
/// is, for some valid random sample, the emission (when that sample's
/// scatter is absorption) or the emission plus the attenuation times a
/// recursively possible estimate for the scattered ray at one less depth.
pub open spec fn radiance_ok(
    cam: Camera,
    ray: Ray,
    depth: i64,
    objs: Seq<Hittable>,
    mats: Seq<Material>,
    est: Vector3,
) -> bool
    decreases depth,
{
    if depth <= 0 {
        est == (Vector3 { x: 0, y: 0, z: 0 })
    } else {
        match list_hit_from_spec(objs, 0, ray, 65, i64::MAX, None) {
            None => est == cam.background,
            Some(rec) => if rec.mat >= mats.len() {
                est == (Vector3 { x: 0, y: 0, z: 0 })
            } else {
                exists|s: ScatterSample|
                    valid_scatter_sample(s) && (match material_scatter_spec(
                        mats[rec.mat as int],
                        ray,
                        rec,
                        s,
                    ) {
                        None => est == material_emitted_spec(
                            mats[rec.mat as int],
                            rec.u,
                            rec.v,
                            rec.point,
                        ),
                        Some(pair) => exists|rest: Vector3|
                            radiance_ok(cam, pair.1, (depth - 1) as i64, objs, mats, rest)
                                && est == scatter_contribution_spec(
                                material_emitted_spec(
                                    mats[rec.mat as int],
                                    rec.u,
                                    rec.v,
                                    rec.point,
                                ),
                                pair.0,
                                rest,
                            ),
                    })
            },
        }
    }
}

/// The checked accumulation of per-sample estimates: each estimate is added
/// in turn, and one whose sum leaves the numeric range is skipped.
pub open spec fn accum_spec(ests: Seq<Vector3>) -> Vector3
    decreases ests.len(),
{
    if ests.len() == 0 {
        Vector3 { x: 0, y: 0, z: 0 }
    } else {
        let prev = accum_spec(ests.drop_last());
        match v_add_spec(prev, ests.last()) {
            None => prev,
            Some(sum) => sum,
        }
    }
}

/// Appending one estimate to the accumulation is one checked addition.
pub proof fn lemma_accum_push(ests: Seq<Vector3>, c: Vector3)
    ensures
        accum_spec(ests.push(c)) == (match v_add_spec(accum_spec(ests), c) {
            None => accum_spec(ests),
            Some(sum) => sum,
        }),
{
    let e2 = ests.push(c);
    assert(e2.drop_last() =~= ests);
    assert(e2.last() == c);
}

/// One output pixel from an accumulated radiance sum: the sum scaled by the
/// per-sample scale, then by the brightness (a range degeneracy in either
/// scaling yields black), then tone-mapped per channel.
pub open spec fn pixel_rgb_spec(cam: Camera, sum: Vector3) -> (u8, u8, u8) {
    let scaled = match v_scale_spec(cam.pixel_samples_scale, sum) {
        None => Vector3 { x: 0, y: 0, z: 0 },
        Some(sc) => sc,
    };
    let bright = match v_scale_spec(cam.brightness, scaled) {
        None => Vector3 { x: 0, y: 0, z: 0 },
        Some(b) => b,
    };
    convert_to_rgb_spec(bright)
}

/// The number of samples a pixel accumulates.
pub open spec fn spec_samples_cap(cam: Camera) -> int {
    if cam.samples_per_pixel > 0 {
        cam.samples_per_pixel as int
    } else {
        0
    }
}

/// One per-sample estimate for pixel `(i, j)`: for some valid jitter
/// offsets and lens-disk sample, the estimate is black when that sample ray
/// cannot be constructed, and otherwise a possible radiance estimate
/// (`radiance_ok`) for that ray at the camera's depth budget.
pub open spec fn sample_estimate_ok(
    cam: Camera,
    i: i32,
    j: i32,
    objs: Seq<Hittable>,
    mats: Seq<Material>,
    est: Vector3,
) -> bool {
    exists|ox: i64, oy: i64, d: Vector3|
        offset_ok(ox) && offset_ok(oy) && disk_ok(d) && (match get_ray_at_spec(
            cam,
            i,
            j,
            ox,
            oy,
            d,
        ) {
            None => est == (Vector3 { x: 0, y: 0, z: 0 }),
            Some(sample_ray) => radiance_ok(cam, sample_ray, cam.max_depth, objs, mats, est),
        })
}

/// The value of pixel `(i, j)`: for some sequence of exactly
/// `samples_per_pixel` per-sample radiance estimates, each arising from a
/// sample ray of this very pixel (black where the ray construction fails),
/// the pixel is the tone-mapped, brightness- and sample-scaled checked sum
/// of that sequence.
pub open spec fn rendered_pixel_ok(
    cam: Camera,
    i: i32,
    j: i32,
    objs: Seq<Hittable>,
    mats: Seq<Material>,
    px: (u8, u8, u8),
) -> bool {
    exists|ests: Seq<Vector3>|
        #![trigger accum_spec(ests)]
        ests.len() == spec_samples_cap(cam) && (forall|k: int|
            0 <= k < ests.len() ==> sample_estimate_ok(cam, i, j, objs, mats, #[trigger] ests[k]))
            && px == pixel_rgb_spec(cam, accum_spec(ests))
}

impl Camera {
    /// A jitter offset in `[-1/2, 1/2)` per axis.
    fn sample_square(&self) -> (r: Vector3)
        ensures
            offset_ok(r.x),
            offset_ok(r.y),
            r.z == 0,
    {
        Vector3 { x: random_float() - 32768, y: random_float() - 32768, z: 0 }
    }

    /// The thin-lens origin for a given disk sample.
    fn defocus_disk_sample(&self, p: Vector3) -> (r: Option<Vector3>)
        ensures
            r == defocus_disk_sample_spec(*self, p),
    {
        let a: Vector3 = match self.defocus_disk_u.scale(p.x) {
            Some(x) => x,
            None => { return None; },
        };
        let b: Vector3 = match self.defocus_disk_v.scale(p.y) {
            Some(x) => x,
            None => { return None; },
        };
        let s0: Vector3 = match self.center.add(a) {
            Some(x) => x,
            None => { return None; },
        };
        s0.add(b)
    }

    /// The deterministic ray construction for given jitter and lens samples.
    pub fn get_ray_at(&self, i: i32, j: i32, ox: i64, oy: i64, disk: Vector3) -> (r: Option<Ray>)
        requires
            offset_ok(ox),
            offset_ok(oy),
        ensures
            r == get_ray_at_spec(*self, i, j, ox, oy, disk),
    {
        let ifx: i64 = (i as i64) * 65536 + ox;
        let jfx: i64 = (j as i64) * 65536 + oy;
        let a: Vector3 = match self.pixel_delta_x.scale(ifx) {
            Some(x) => x,
            None => { return None; },
        };
        let b: Vector3 = match self.pixel_delta_y.scale(jfx) {
            Some(x) => x,
            None => { return None; },
        };
        let p0: Vector3 = match self.first_pixel.add(a) {
            Some(x) => x,
            None => { return None; },
        };
        let pixel_sample: Vector3 = match p0.add(b) {
            Some(x) => x,
            None => { return None; },
        };
        let origin: Vector3 = if self.defocus_angle <= 0 {
            self.center
        } else {
            match self.defocus_disk_sample(disk) {
                Some(x) => x,
                None => { return None; },
            }
        };
        let direction: Vector3 = match pixel_sample.sub(origin) {
            Some(x) => x,
            None => { return None; },
        };
        Some(Ray { origin, direction })
    }

    /// A fresh jittered (and lens-sampled) ray for pixel `(i, j)`: whatever
    /// comes back is the deterministic construction for some valid samples.
    pub fn get_ray(&self, i: i32, j: i32) -> (r: Option<Ray>)
        ensures
            exists|ox: i64, oy: i64, d: Vector3|
                offset_ok(ox) && offset_ok(oy) && disk_ok(d) && r == get_ray_at_spec(
                    *self,
                    i,
                    j,
                    ox,
                    oy,
                    d,
                ),
    {
        let off: Vector3 = self.sample_square();
        let disk: Vector3 = random_in_unit_disk();
        let r = self.get_ray_at(i, j, off.x, off.y, disk);
        proof {
            assert(offset_ok(off.x) && offset_ok(off.y) && disk_ok(disk) && r == get_ray_at_spec(
                *self,
                i,
                j,
                off.x,
                off.y,
                disk,
            ));
        }
        r
    }

    /// The recursive radiance estimate along a ray.
    ///
    /// The contract is the recursive predicate `radiance_ok`: it pins the
    /// deterministic cases — an exhausted depth budget is black, a miss is
    /// the background, a hit on an emissive (or on an out-of-range material
    /// handle) adds no scattered light — and states the scattering case
    /// existentially: for some valid random sample, the result is either the
    /// emission (when that sample's scatter is absorption) or the emission
    /// plus the attenuation times an estimate that is itself `radiance_ok`
    /// for the scattered ray at one less depth. The three plain clauses
    /// restate the deterministic cases for direct use.
    pub fn ray_color(
        &self,
        ray: Ray,
        max_depth: i64,
        world: &HittableList,
        materials: &Vec<Material>,
    ) -> (r: Vector3)
        ensures
            radiance_ok(*self, ray, max_depth, world.objects@, materials@, r),
            max_depth <= 0 ==> r == (Vector3 { x: 0, y: 0, z: 0 }),
            ({
                let hit = list_hit_from_spec(world.objects@, 0, ray, 65, i64::MAX, None);
                &&& (max_depth > 0 && hit is None ==> r == self.background)
                &&& (max_depth > 0 && hit is Some && hit->0.mat >= materials@.len() ==> r == (
                Vector3 { x: 0, y: 0, z: 0 }))
                &&& (max_depth > 0 && hit is Some && hit->0.mat < materials@.len()
                    && materials@[hit->0.mat as int] is DiffuseLight ==> r
                    == material_emitted_spec(
                    materials@[hit->0.mat as int],
                    hit->0.u,
                    hit->0.v,
                    hit->0.point,
                ))
            }),
        decreases max_depth,
    {
        if max_depth <= 0 {
            return Vector3 { x: 0, y: 0, z: 0 };
        }
        let rec: HitRecord = match world.hit(ray, Interval { min: 65, max: i64::MAX }) {
            None => { return self.background; },
            Some(rec) => rec,
        };
        if rec.mat >= materials.len() {
            return Vector3 { x: 0, y: 0, z: 0 };
        }
        let m: &Material = &materials[rec.mat];
        let color_from_emission: Vector3 = m.color_emitted(rec.u, rec.v, rec.point);
        let scat_opt: Option<(Vector3, Ray)> = m.scatter_random(ray, &rec);
        let ghost mut rest: Vector3 = Vector3 { x: 0, y: 0, z: 0 };
        let result: Vector3 = match scat_opt {
            None => color_from_emission,
            Some((color_attenuation, scattered)) => {
                let rc: Vector3 = self.ray_color(scattered, max_depth - 1, world, materials);
                proof {
                    rest = rc;
                }
                match color_attenuation.mul_comp(rc) {
                    None => color_from_emission,
                    Some(color_from_scatter) => match color_from_emission.add(
                        color_from_scatter,
                    ) {
                        None => color_from_emission,
                        Some(total) => total,
                    },
                }
            },
        };
        proof {
            let mspec = materials@[rec.mat as int];
            let em = material_emitted_spec(mspec, rec.u, rec.v, rec.point);
            let s = choose|s: ScatterSample|
                valid_scatter_sample(s) && scat_opt == material_scatter_spec(mspec, ray, rec, s);
            match scat_opt {
                None => {
                    assert(valid_scatter_sample(s) && (match material_scatter_spec(
                        mspec,
                        ray,
                        rec,
                        s,
                    ) {
                        None => result == em,
                        Some(pair) => exists|rest0: Vector3|
                            radiance_ok(
                                *self,
                                pair.1,
                                (max_depth - 1) as i64,
                                world.objects@,
                                materials@,
                                rest0,
                            ) && result == scatter_contribution_spec(em, pair.0, rest0),
                    }));
                },
                Some(pair) => {
                    assert(radiance_ok(
                        *self,
                        pair.1,
                        (max_depth - 1) as i64,
                        world.objects@,
                        materials@,
                        rest,
                    ) && result == scatter_contribution_spec(em, pair.0, rest));
                    assert(valid_scatter_sample(s) && (match material_scatter_spec(
                        mspec,
                        ray,
                        rec,
                        s,
                    ) {
                        None => result == em,
                        Some(pair0) => exists|rest0: Vector3|
                            radiance_ok(
                                *self,
                                pair0.1,
                                (max_depth - 1) as i64,
                                world.objects@,
                                materials@,
                                rest0,
                            ) && result == scatter_contribution_spec(em, pair0.0, rest0),
                    }));
                },
            }
            assert(radiance_ok(*self, ray, max_depth, world.objects@, materials@, result));
        }
        result
    }

    /// The pixel count of the output buffer.
    pub open spec fn spec_num_pixels(&self) -> int {
        (if self.image_height > 0 {
            self.image_height as int
        } else {
            0
        }) * (if self.image_width > 0 {
            self.image_width as int
        } else {
            0
        })
    }

    /// Render the scene: one tone-mapped RGB triple per pixel, in raster
    /// order — rows from the top, pixels left to right — so the entry at
    /// index `k` is a possible value of pixel `(k % image_width,
    /// k / image_width)`: the tone-mapped, scaled sum of exactly
    /// `samples_per_pixel` radiance estimates for sample rays of that pixel.
    pub fn render(&self, world: &HittableList, materials: &Vec<Material>) -> (r: Vec<
        (u8, u8, u8),
    >)
        ensures
            r@.len() == self.spec_num_pixels(),
            forall|k: int|
                #![trigger r@[k]]
                0 <= k < r@.len() ==> rendered_pixel_ok(
                    *self,
                    (k % (self.image_width as int)) as i32,
                    (k / (self.image_width as int)) as i32,
                    world.objects@,
                    materials@,
                    r@[k],
                ),
    {
        let mut out: Vec<(u8, u8, u8)> = Vec::new();
        let height: i32 = self.image_height;
        let width: i32 = self.image_width;
        if height <= 0 || width <= 0 {
            return out;
        }
        let mut j: i32 = 0;
        while j < height
            invariant
                0 < height,
                0 < width,
                height == self.image_height,
                width == self.image_width,
                0 <= j <= height,
                out@.len() == j as int * width as int,
                forall|k: int|
                    #![trigger out@[k]]
                    0 <= k < out@.len() ==> rendered_pixel_ok(
                        *self,
                        (k % (width as int)) as i32,
                        (k / (width as int)) as i32,
                        world.objects@,
                        materials@,
                        out@[k],
                    ),
            decreases height - j,
        {
            let mut i: i32 = 0;
            while i < width
                invariant
                    0 < height,
                    0 < width,
                    height == self.image_height,
                    width == self.image_width,
                    0 <= i <= width,
                    0 <= j < height,
                    out@.len() == j as int * width as int + i as int,
                    forall|k: int|
                        #![trigger out@[k]]
                        0 <= k < out@.len() ==> rendered_pixel_ok(
                            *self,
                            (k % (width as int)) as i32,
                            (k / (width as int)) as i32,
                            world.objects@,
                            materials@,
                            out@[k],
                        ),
                decreases width - i,
            {
                let ghost old_out = out@;
                let rgb: (u8, u8, u8) = self.render_pixel(i, j, world, materials);
                out.push(rgb);
                proof {
                    vstd::arithmetic::mul::lemma_mul_is_distributive_add(
                        width as int,
                        j as int,
                        1,
                    );
                    let w = width as int;
                    let k0 = j as int * w + i as int;
                    vstd::arithmetic::div_mod::lemma_fundamental_div_mod_converse(
                        k0,
                        w,
                        j as int,
                        i as int,
                    );
                    assert forall|k: int| 0 <= k < out@.len() implies rendered_pixel_ok(
                        *self,
                        (k % w) as i32,
                        (k / w) as i32,
                        world.objects@,
                        materials@,
                        #[trigger] out@[k],
                    ) by {
                        if k < k0 {
                            assert(out@[k] == old_out[k]);
                        } else {
                            assert(out@[k] == rgb);
                        }
                    }
                }
                i = i + 1;
            }
            j = j + 1;
            proof {
                vstd::arithmetic::mul::lemma_mul_is_distributive_add_other_way(
                    width as int,
                    j as int - 1,
                    1,
                );
            }
        }
        out
    }

    /// One pixel: the per-sample radiance sum scaled by the sample scale and
    /// the brightness, tone-mapped; a sample whose ray generation or whose
    /// accumulation leaves the numeric range contributes nothing.
    fn render_pixel(&self, i: i32, j: i32, world: &HittableList, materials: &Vec<Material>) -> (r:
        (u8, u8, u8))
        ensures
            rendered_pixel_ok(*self, i, j, world.objects@, materials@, r),
    {
        let mut pixel_color = Vector3 { x: 0, y: 0, z: 0 };
        let ghost mut ests: Seq<Vector3> = Seq::empty();
        let mut s: i64 = 0;
        let samples: i64 = self.samples_per_pixel;
        while s < samples
            invariant
                0 <= s,
                s <= (if samples > 0 {
                    samples as int
                } else {
                    0
                }),
                samples == self.samples_per_pixel,
                ests.len() == s,
                pixel_color == accum_spec(ests),
                forall|k: int|
                    0 <= k < ests.len() ==> sample_estimate_ok(
                        *self,
                        i,
                        j,
                        world.objects@,
                        materials@,
                        #[trigger] ests[k],
                    ),
            decreases samples - s,
        {
            let ray_opt: Option<Ray> = self.get_ray(i, j);
            let est: Vector3 = match ray_opt {
                Some(sample_ray) => self.ray_color(sample_ray, self.max_depth, world, materials),
                None => Vector3 { x: 0, y: 0, z: 0 },
            };
            proof {
                let (ox, oy, d) = choose|ox: i64, oy: i64, d: Vector3|
                    offset_ok(ox) && offset_ok(oy) && disk_ok(d) && ray_opt == get_ray_at_spec(
                        *self,
                        i,
                        j,
                        ox,
                        oy,
                        d,
                    );
                assert(offset_ok(ox) && offset_ok(oy) && disk_ok(d) && (match get_ray_at_spec(
                    *self,
                    i,
                    j,
                    ox,
                    oy,
                    d,
                ) {
                    None => est == (Vector3 { x: 0, y: 0, z: 0 }),
                    Some(sample_ray) => radiance_ok(
                        *self,
                        sample_ray,
                        self.max_depth,
                        world.objects@,
                        materials@,
                        est,
                    ),
                }));
                assert(sample_estimate_ok(*self, i, j, world.objects@, materials@, est));
                lemma_accum_push(ests, est);
                let e2 = ests.push(est);
                assert forall|k2: int| 0 <= k2 < e2.len() implies sample_estimate_ok(
                    *self,
                    i,
                    j,
                    world.objects@,
                    materials@,
                    #[trigger] e2[k2],
                ) by {
                    if k2 < ests.len() {
                        assert(e2[k2] == ests[k2]);
                    } else {
                        assert(e2[k2] == est);
                    }
                }
                ests = e2;
            }
            match pixel_color.add(est) {
                Some(p) => { pixel_color = p; },
                None => {},
            }
            s = s + 1;
        }
        let scaled: Vector3 = match pixel_color.scale(self.pixel_samples_scale) {
            Some(x) => x,
            None => Vector3 { x: 0, y: 0, z: 0 },
        };
        let bright: Vector3 = match scaled.scale(self.brightness) {
            Some(x) => x,
            None => Vector3 { x: 0, y: 0, z: 0 },
        };
        let rgb: (u8, u8, u8) = convert_to_rgb(bright);
        proof {
            assert(ests.len() == spec_samples_cap(*self) && (forall|k: int|
                0 <= k < ests.len() ==> sample_estimate_ok(
                    *self,
                    i,
                    j,
                    world.objects@,
                    materials@,
                    #[trigger] ests[k],
                )) && rgb == pixel_rgb_spec(*self, accum_spec(ests)));
        }
        rgb
    }
}

} // verus!
