//! Three-component vectors over the fixed-point scalars of [`crate::math`].
//!
//! A `Vector3` serves as a point, a direction, or a color (unnormalized
//! linear radiance). Every operation whose true result leaves the 64-bit
//! raw range returns `None`; callers treat that as a numeric degeneracy.

use vstd::prelude::*;
use crate::math::{
    abs_i, in_i64, tdiv, fx_mul, fx_mul_spec, fx_div, fx_div_spec, fx_sqrt, fx_sqrt_spec, ONE,
    add_i64, add_i64_spec, sub_i64, sub_i64_spec, random, random_float, lemma_tdiv_abs,
    lemma_abs_mul, is_isqrt,
};
use vstd::arithmetic::div_mod::{lemma_div_is_ordered, lemma_div_multiples_vanish};
use vstd::arithmetic::mul::lemma_mul_left_inequality;

verus! {

/// Largest component magnitude admitted into a product (`2^62`); a dot or
/// cross product of anything larger reports a degeneracy instead.
pub const COMP_LIMIT: i64 = 0x4000_0000_0000_0000;

#[derive(Clone, Copy, PartialEq, Eq, Structural, Debug)]
pub struct Vector3 {
    pub x: i64,
    pub y: i64,
    pub z: i64,
}

pub open spec fn v_add_spec(a: Vector3, b: Vector3) -> Option<Vector3> {
    match (add_i64_spec(a.x, b.x), add_i64_spec(a.y, b.y), add_i64_spec(a.z, b.z)) {
        (Some(x), Some(y), Some(z)) => Some(Vector3 { x, y, z }),
        _ => None,
    }
}

pub open spec fn v_sub_spec(a: Vector3, b: Vector3) -> Option<Vector3> {
    match (sub_i64_spec(a.x, b.x), sub_i64_spec(a.y, b.y), sub_i64_spec(a.z, b.z)) {
        (Some(x), Some(y), Some(z)) => Some(Vector3 { x, y, z }),
        _ => None,
    }
}

pub open spec fn v_neg_spec(a: Vector3) -> Option<Vector3> {
    v_sub_spec(Vector3 { x: 0, y: 0, z: 0 }, a)
}

/// Componentwise fixed-point scaling by `s`.
pub open spec fn v_scale_spec(s: i64, a: Vector3) -> Option<Vector3> {
    match (fx_mul_spec(s, a.x), fx_mul_spec(s, a.y), fx_mul_spec(s, a.z)) {
        (Some(x), Some(y), Some(z)) => Some(Vector3 { x, y, z }),
        _ => None,
    }
}

/// Componentwise fixed-point product (color attenuation).
pub open spec fn v_mul_spec(a: Vector3, b: Vector3) -> Option<Vector3> {
    match (fx_mul_spec(a.x, b.x), fx_mul_spec(a.y, b.y), fx_mul_spec(a.z, b.z)) {
        (Some(x), Some(y), Some(z)) => Some(Vector3 { x, y, z }),
        _ => None,
    }
}

pub open spec fn comps_bounded(a: Vector3) -> bool {
    abs_i(a.x as int) <= COMP_LIMIT && abs_i(a.y as int) <= COMP_LIMIT && abs_i(a.z as int)
        <= COMP_LIMIT
}

/// Fixed-point dot product: `(ax bx + ay by + az bz) / ONE`.
pub open spec fn dot_spec(a: Vector3, b: Vector3) -> Option<i64> {
    if !comps_bounded(a) || !comps_bounded(b) {
        None
    } else {
        let s = tdiv(
            a.x as int * b.x as int + a.y as int * b.y as int + a.z as int * b.z as int,
            ONE as int,
        );
        if in_i64(s) {
            Some(s as i64)
        } else {
            None
        }
    }
}

/// Fixed-point cross product, componentwise `(a[i+1] b[i+2] - a[i+2] b[i+1]) / ONE`.
pub open spec fn cross_spec(a: Vector3, b: Vector3) -> Option<Vector3> {
    if !comps_bounded(a) || !comps_bounded(b) {
        None
    } else {
        let cx = tdiv(a.y as int * b.z as int - a.z as int * b.y as int, ONE as int);
        let cy = tdiv(a.z as int * b.x as int - a.x as int * b.z as int, ONE as int);
        let cz = tdiv(a.x as int * b.y as int - a.y as int * b.x as int, ONE as int);
        if in_i64(cx) && in_i64(cy) && in_i64(cz) {
            Some(Vector3 { x: cx as i64, y: cy as i64, z: cz as i64 })
        } else {
            None
        }
    }
}

pub open spec fn length_squared_spec(a: Vector3) -> Option<i64> {
    dot_spec(a, a)
}

pub open spec fn length_spec(a: Vector3) -> Option<i64> {
    match dot_spec(a, a) {
        Some(ls) => Some(fx_sqrt_spec(ls)),
        None => None,
    }
}

pub open spec fn normalize_spec(a: Vector3) -> Option<Vector3> {
    match length_spec(a) {
        Some(len) => match (fx_div_spec(a.x, len), fx_div_spec(a.y, len), fx_div_spec(
            a.z,
            len,
        )) {
            (Some(x), Some(y), Some(z)) => Some(Vector3 { x, y, z }),
            _ => None,
        },
        None => None,
    }
}

proof fn lemma_bounded_product(a: int, b: int)
    requires
        abs_i(a) <= 0x4000_0000_0000_0000,
        abs_i(b) <= 0x4000_0000_0000_0000,
    ensures
        -0x1000_0000_0000_0000_0000_0000_0000_0000 <= a * b
            <= 0x1000_0000_0000_0000_0000_0000_0000_0000,
{
    assert(-0x1000_0000_0000_0000_0000_0000_0000_0000 <= a * b
        <= 0x1000_0000_0000_0000_0000_0000_0000_0000) by (nonlinear_arith)
        requires
            -0x4000_0000_0000_0000 <= a <= 0x4000_0000_0000_0000,
            -0x4000_0000_0000_0000 <= b <= 0x4000_0000_0000_0000;
}

impl Vector3 {
    pub fn new(x: i64, y: i64, z: i64) -> (r: Vector3)
        ensures
            r == (Vector3 { x, y, z }),
    {
        Vector3 { x, y, z }
    }

    pub fn zero() -> (r: Vector3)
        ensures
            r == (Vector3 { x: 0, y: 0, z: 0 }),
    {
        Vector3 { x: 0, y: 0, z: 0 }
    }

    pub fn add(self, b: Vector3) -> (r: Option<Vector3>)
        ensures
            r == v_add_spec(self, b),
    {
        match (add_i64(self.x, b.x), add_i64(self.y, b.y), add_i64(self.z, b.z)) {
            (Some(x), Some(y), Some(z)) => Some(Vector3 { x, y, z }),
            _ => None,
        }
    }

    pub fn sub(self, b: Vector3) -> (r: Option<Vector3>)
        ensures
            r == v_sub_spec(self, b),
    {
        match (sub_i64(self.x, b.x), sub_i64(self.y, b.y), sub_i64(self.z, b.z)) {
            (Some(x), Some(y), Some(z)) => Some(Vector3 { x, y, z }),
            _ => None,
        }
    }

    pub fn neg(self) -> (r: Option<Vector3>)
        ensures
            r == v_neg_spec(self),
    {
        Vector3 { x: 0, y: 0, z: 0 }.sub(self)
    }

    pub fn scale(self, s: i64) -> (r: Option<Vector3>)
        ensures
            r == v_scale_spec(s, self),
    {
        match (fx_mul(s, self.x), fx_mul(s, self.y), fx_mul(s, self.z)) {
            (Some(x), Some(y), Some(z)) => Some(Vector3 { x, y, z }),
            _ => None,
        }
    }

    /// Componentwise product, the attenuation of a color by a color.
    pub fn mul_comp(self, b: Vector3) -> (r: Option<Vector3>)
        ensures
            r == v_mul_spec(self, b),
    {
        match (fx_mul(self.x, b.x), fx_mul(self.y, b.y), fx_mul(self.z, b.z)) {
            (Some(x), Some(y), Some(z)) => Some(Vector3 { x, y, z }),
            _ => None,
        }
    }

    pub fn dot(self, b: Vector3) -> (r: Option<i64>)
        ensures
            r == dot_spec(self, b),
    {
        if self.x > COMP_LIMIT || self.x < -COMP_LIMIT || self.y > COMP_LIMIT || self.y
            < -COMP_LIMIT || self.z > COMP_LIMIT || self.z < -COMP_LIMIT {
            return None;
        }
        if b.x > COMP_LIMIT || b.x < -COMP_LIMIT || b.y > COMP_LIMIT || b.y < -COMP_LIMIT || b.z
            > COMP_LIMIT || b.z < -COMP_LIMIT {
            return None;
        }
        proof {
            lemma_bounded_product(self.x as int, b.x as int);
            lemma_bounded_product(self.y as int, b.y as int);
            lemma_bounded_product(self.z as int, b.z as int);
        }
        let p: i128 = (self.x as i128) * (b.x as i128) + (self.y as i128) * (b.y as i128) + (
        self.z as i128) * (b.z as i128);
        let q: i128 = crate::math::div_i128(p, 65536);
        if i64::MIN as i128 <= q && q <= i64::MAX as i128 {
            Some(q as i64)
        } else {
            None
        }
    }

    pub fn cross(self, b: Vector3) -> (r: Option<Vector3>)
        ensures
            r == cross_spec(self, b),
    {
        if self.x > COMP_LIMIT || self.x < -COMP_LIMIT || self.y > COMP_LIMIT || self.y
            < -COMP_LIMIT || self.z > COMP_LIMIT || self.z < -COMP_LIMIT {
            return None;
        }
        if b.x > COMP_LIMIT || b.x < -COMP_LIMIT || b.y > COMP_LIMIT || b.y < -COMP_LIMIT || b.z
            > COMP_LIMIT || b.z < -COMP_LIMIT {
            return None;
        }
        proof {
            lemma_bounded_product(self.x as int, b.x as int);
            lemma_bounded_product(self.x as int, b.y as int);
            lemma_bounded_product(self.x as int, b.z as int);
            lemma_bounded_product(self.y as int, b.x as int);
            lemma_bounded_product(self.y as int, b.y as int);
            lemma_bounded_product(self.y as int, b.z as int);
            lemma_bounded_product(self.z as int, b.x as int);
            lemma_bounded_product(self.z as int, b.y as int);
            lemma_bounded_product(self.z as int, b.z as int);
        }
        let px: i128 = (self.y as i128) * (b.z as i128) - (self.z as i128) * (b.y as i128);
        let py: i128 = (self.z as i128) * (b.x as i128) - (self.x as i128) * (b.z as i128);
        let pz: i128 = (self.x as i128) * (b.y as i128) - (self.y as i128) * (b.x as i128);
        let cx: i128 = crate::math::div_i128(px, 65536);
        let cy: i128 = crate::math::div_i128(py, 65536);
        let cz: i128 = crate::math::div_i128(pz, 65536);
        if i64::MIN as i128 <= cx && cx <= i64::MAX as i128 && i64::MIN as i128 <= cy && cy
            <= i64::MAX as i128 && i64::MIN as i128 <= cz && cz <= i64::MAX as i128 {
            Some(Vector3 { x: cx as i64, y: cy as i64, z: cz as i64 })
        } else {
            None
        }
    }

    pub fn length_squared(self) -> (r: Option<i64>)
        ensures
            r == length_squared_spec(self),
    {
        self.dot(self)
    }

    pub fn length(self) -> (r: Option<i64>)
        ensures
            r == length_spec(self),
            r is Some ==> r->0 >= 0,
    {
        match self.length_squared() {
            Some(ls) => {
                proof {
                    lemma_dot_self_nonneg(self);
                }
                Some(fx_sqrt(ls))
            },
            None => None,
        }
    }

    /// The unit vector in the direction of `self`; `None` when the length is
    /// zero (or out of range).
    pub fn normalize(self) -> (r: Option<Vector3>)
        ensures
            r == normalize_spec(self),
    {
        match self.length() {
            Some(len) => match (fx_div(self.x, len), fx_div(self.y, len), fx_div(self.z, len)) {
                (Some(x), Some(y), Some(z)) => Some(Vector3 { x, y, z }),
                _ => None,
            },
            None => None,
        }
    }
}

/// A dot product of a vector with itself is nonnegative when defined.
pub proof fn lemma_dot_self_nonneg(a: Vector3)
    requires
        dot_spec(a, a) is Some,
    ensures
        dot_spec(a, a)->0 >= 0,
{
    assert(a.x as int * a.x as int >= 0) by (nonlinear_arith);
    assert(a.y as int * a.y as int >= 0) by (nonlinear_arith);
    assert(a.z as int * a.z as int >= 0) by (nonlinear_arith);
}

/// Componentwise fixed-point division by a scalar.
pub open spec fn v_div_spec(a: Vector3, s: i64) -> Option<Vector3> {
    match (fx_div_spec(a.x, s), fx_div_spec(a.y, s), fx_div_spec(a.z, s)) {
        (Some(x), Some(y), Some(z)) => Some(Vector3 { x, y, z }),
        _ => None,
    }
}

impl Vector3 {
    pub fn div(self, s: i64) -> (r: Option<Vector3>)
        ensures
            r == v_div_spec(self, s),
    {
        match (fx_div(self.x, s), fx_div(self.y, s), fx_div(self.z, s)) {
            (Some(x), Some(y), Some(z)) => Some(Vector3 { x, y, z }),
            _ => None,
        }
    }
}

/// All components are zero (the fixed-point grid has no smaller magnitude
/// than one raw unit, so the degeneracy threshold is exact zero).
pub open spec fn near_zero_spec(v: Vector3) -> bool {
    v.x == 0 && v.y == 0 && v.z == 0
}

pub fn near_zero(vec: Vector3) -> (r: bool)
    ensures
        r == near_zero_spec(vec),
{
    vec.x == 0 && vec.y == 0 && vec.z == 0
}

/// Mirror of `v` about the unit normal `n`: `v - 2 (v . n) n`.
pub open spec fn reflect_spec(v: Vector3, n: Vector3) -> Option<Vector3> {
    match dot_spec(v, n) {
        None => None,
        Some(d) => match add_i64_spec(d, d) {
            None => None,
            Some(d2) => match v_scale_spec(d2, n) {
                None => None,
                Some(s) => v_sub_spec(v, s),
            },
        },
    }
}

pub fn reflect(v: Vector3, n: Vector3) -> (r: Option<Vector3>)
    ensures
        r == reflect_spec(v, n),
{
    let d: i64 = match v.dot(n) {
        Some(x) => x,
        None => { return None; },
    };
    let d2: i64 = match add_i64(d, d) {
        Some(x) => x,
        None => { return None; },
    };
    let s: Vector3 = match n.scale(d2) {
        Some(x) => x,
        None => { return None; },
    };
    v.sub(s)
}

/// Snell refraction of the unit direction `uv` at the unit normal `n` with
/// index ratio `etai_over_etat`:
/// the tangential part `eta (uv + cos n)` plus `-sqrt(|1 - |perp|^2|) n`.
pub open spec fn refract_spec(uv: Vector3, n: Vector3, etai_over_etat: i64) -> Option<Vector3> {
    match v_neg_spec(uv) {
        None => None,
        Some(nuv) => match dot_spec(nuv, n) {
            None => None,
            Some(d0) => {
                let cos = if d0 > ONE {
                    ONE
                } else {
                    d0
                };
                match v_scale_spec(cos, n) {
                    None => None,
                    Some(cn) => match v_add_spec(uv, cn) {
                        None => None,
                        Some(sum) => match v_scale_spec(etai_over_etat, sum) {
                            None => None,
                            Some(perp) => match dot_spec(perp, perp) {
                                None => None,
                                Some(pl) => match sub_i64_spec(ONE, pl) {
                                    None => None,
                                    Some(om) => {
                                        let oma = if om < 0 {
                                            (-(om as int)) as i64
                                        } else {
                                            om
                                        };
                                        let spar = fx_sqrt_spec(oma);
                                        match sub_i64_spec(0, spar) {
                                            None => None,
                                            Some(nspar) => match v_scale_spec(nspar, n) {
                                                None => None,
                                                Some(par) => v_add_spec(perp, par),
                                            },
                                        }
                                    },
                                },
                            },
                        },
                    },
                }
            },
        },
    }
}

pub fn refract(uv: Vector3, n: Vector3, etai_over_etat: i64) -> (r: Option<Vector3>)
    ensures
        r == refract_spec(uv, n, etai_over_etat),
{
    let nuv: Vector3 = match uv.neg() {
        Some(x) => x,
        None => { return None; },
    };
    let d0: i64 = match nuv.dot(n) {
        Some(x) => x,
        None => { return None; },
    };
    let cos: i64 = if d0 > ONE {
        ONE
    } else {
        d0
    };
    let cn: Vector3 = match n.scale(cos) {
        Some(x) => x,
        None => { return None; },
    };
    let sum: Vector3 = match uv.add(cn) {
        Some(x) => x,
        None => { return None; },
    };
    let perp: Vector3 = match sum.scale(etai_over_etat) {
        Some(x) => x,
        None => { return None; },
    };
    let pl: i64 = match perp.dot(perp) {
        Some(x) => x,
        None => { return None; },
    };
    let om: i64 = match sub_i64(ONE, pl) {
        Some(x) => x,
        None => { return None; },
    };
    let oma: i64 = if om < 0 {
        proof {
            lemma_dot_self_nonneg(perp);
        }
        -om
    } else {
        om
    };
    let spar: i64 = fx_sqrt(oma);
    let nspar: i64 = match sub_i64(0, spar) {
        Some(x) => x,
        None => { return None; },
    };
    let par: Vector3 = match n.scale(nspar) {
        Some(x) => x,
        None => { return None; },
    };
    perp.add(par)
}

/// A unit vector along one coordinate axis, in either direction.
pub open spec fn axis_unit(n: Vector3) -> bool {
    (abs_i(n.x as int) == ONE && n.y == 0 && n.z == 0) || (n.x == 0 && abs_i(n.y as int) == ONE
        && n.z == 0) || (n.x == 0 && n.y == 0 && abs_i(n.z as int) == ONE)
}

/// The mirror image of `v` about the axis of `n`: the component along the
/// axis is negated, the others are kept.
pub open spec fn axis_mirror(v: Vector3, n: Vector3) -> Vector3 {
    Vector3 {
        x: if n.x != 0 {
            (-(v.x as int)) as i64
        } else {
            v.x
        },
        y: if n.y != 0 {
            (-(v.y as int)) as i64
        } else {
            v.y
        },
        z: if n.z != 0 {
            (-(v.z as int)) as i64
        } else {
            v.z
        },
    }
}

/// Reflection about an axis-aligned unit normal is the exact mirror image.
pub proof fn lemma_reflect_axis(v: Vector3, n: Vector3)
    requires
        axis_unit(n),
        abs_i(v.x as int) <= 0x2000_0000_0000_0000,
        abs_i(v.y as int) <= 0x2000_0000_0000_0000,
        abs_i(v.z as int) <= 0x2000_0000_0000_0000,
    ensures
        reflect_spec(v, n) == Some(axis_mirror(v, n)),
{
    crate::math::lemma_fx_mul_zero(0);
    if n.y == 0 && n.z == 0 {
        crate::math::lemma_tdiv_one_signed(v.x, n.x);
        let d = dot_spec(v, n)->0;
        assert(d as int == if n.x == ONE { v.x as int } else { -(v.x as int) });
        let d2 = add_i64_spec(d, d)->0;
        crate::math::lemma_tdiv_one_signed(d2, n.x);
        crate::math::lemma_fx_mul_zero(d2);
    } else if n.x == 0 && n.z == 0 {
        crate::math::lemma_tdiv_one_signed(v.y, n.y);
        let d = dot_spec(v, n)->0;
        let d2 = add_i64_spec(d, d)->0;
        crate::math::lemma_tdiv_one_signed(d2, n.y);
        crate::math::lemma_fx_mul_zero(d2);
    } else {
        crate::math::lemma_tdiv_one_signed(v.z, n.z);
        let d = dot_spec(v, n)->0;
        let d2 = add_i64_spec(d, d)->0;
        crate::math::lemma_tdiv_one_signed(d2, n.z);
        crate::math::lemma_fx_mul_zero(d2);
    }
}

/// Reflecting twice about one axis-aligned unit normal reconstructs the
/// vector exactly.
pub proof fn lemma_reflect_involution(v: Vector3, n: Vector3)
    requires
        axis_unit(n),
        abs_i(v.x as int) <= 0x2000_0000_0000_0000,
        abs_i(v.y as int) <= 0x2000_0000_0000_0000,
        abs_i(v.z as int) <= 0x2000_0000_0000_0000,
    ensures
        reflect_spec(v, n) is Some,
        reflect_spec(reflect_spec(v, n)->0, n) == Some(v),
{
    lemma_reflect_axis(v, n);
    lemma_reflect_axis(axis_mirror(v, n), n);
}

/// Refraction at exact normal incidence to a unit normal leaves the
/// direction unchanged, for any index ratio of one.
pub proof fn lemma_refract_identity_normal_incidence(uv: Vector3, n: Vector3)
    requires
        dot_spec(n, n) == Some(ONE),
        v_neg_spec(n) == Some(uv),
    ensures
        refract_spec(uv, n, ONE) == Some(uv),
{
    crate::math::lemma_fx_mul_one(n.x);
    crate::math::lemma_fx_mul_one(n.y);
    crate::math::lemma_fx_mul_one(n.z);
    crate::math::lemma_fx_mul_one(0);
    vstd::arithmetic::div_mod::lemma_div_of0(65536);
    assert(v_neg_spec(uv) == Some(n));
    assert(v_add_spec(uv, n) == Some(Vector3 { x: 0, y: 0, z: 0 }));
    assert(dot_spec(Vector3 { x: 0, y: 0, z: 0 }, Vector3 { x: 0, y: 0, z: 0 }) == Some(0i64));
    assert(is_isqrt((65536 * 65536) as int, 65536));
    crate::math::lemma_isqrt_val((65536 * 65536) as int, 65536);
    assert(fx_sqrt_spec(ONE) == 65536i64);
    crate::math::lemma_tdiv_one_signed(n.x, -65536i64);
    crate::math::lemma_tdiv_one_signed(n.y, -65536i64);
    crate::math::lemma_tdiv_one_signed(n.z, -65536i64);
    assert(v_scale_spec(-65536i64, n) == Some(uv));
}

/// A random vector with each component in `[min, max]`.
pub fn random_vector(min: i64, max: i64) -> (r: Vector3)
    requires
        min <= max,
        abs_i(min as int) <= 0x4_0000_0000_0000,
        abs_i(max as int) <= 0x4_0000_0000_0000,
    ensures
        min <= r.x <= max,
        min <= r.y <= max,
        min <= r.z <= max,
{
    Vector3 { x: random(min, max), y: random(min, max), z: random(min, max) }
}

/// A random vector with each component in `[0, 1)`.
pub fn random_float_vector() -> (r: Vector3)
    ensures
        0 <= r.x < ONE,
        0 <= r.y < ONE,
        0 <= r.z < ONE,
{
    Vector3 { x: random_float(), y: random_float(), z: random_float() }
}

/// The result is an accepted rejection sample: a cube sample whose squared
/// length lies in `[1/4, 1]`, divided by the square root of that squared
/// length (so the direction is of roughly unit length).
pub open spec fn accepted_unit_sample(p: Vector3, lensq: i64, r: Vector3) -> bool {
    -ONE <= p.x <= ONE && -ONE <= p.y <= ONE && -ONE <= p.z <= ONE && length_squared_spec(p)
        == Some(lensq) && 16384 <= lensq <= ONE && v_div_spec(p, fx_sqrt_spec(lensq)) == Some(r)
}

/// A random direction of roughly unit length, by rejection sampling from the
/// cube (bounded attempts; one fixed axis as the last resort). Every
/// component of the result stays within two units, and the result is either
/// the fixed fallback axis or the normalization of an accepted sample whose
/// squared length lay in `[1/4, 1]`.
pub fn random_unit_vector() -> (r: Vector3)
    ensures
        abs_i(r.x as int) <= 2 * ONE,
        abs_i(r.y as int) <= 2 * ONE,
        abs_i(r.z as int) <= 2 * ONE,
        r == (Vector3 { x: 0, y: 0, z: ONE }) || exists|p: Vector3, lensq: i64|
            accepted_unit_sample(p, lensq, r),
{
    let mut attempts: u32 = 0;
    while attempts < 64
        invariant
            true,
        decreases 64 - attempts,
    {
        let p: Vector3 = random_vector(-65536, 65536);
        match p.length_squared() {
            Some(lensq) => {
                if 16384 <= lensq && lensq <= 65536 {
                    let len: i64 = fx_sqrt(lensq);
                    proof {
                        assert(32768 <= len) by {
                            if len < 32768 {
                                assert((len + 1) * (len + 1) <= 32768 * 32768)
                                    by (nonlinear_arith)
                                    requires
                                        0 <= len,
                                        len + 1 <= 32768;
                                assert(false);
                            }
                        }
                        lemma_unit_div_bounded(p.x, len);
                        lemma_unit_div_bounded(p.y, len);
                        lemma_unit_div_bounded(p.z, len);
                    }
                    match p.div(len) {
                        Some(unit) => {
                            proof {
                                assert(accepted_unit_sample(p, lensq, unit));
                            }
                            return unit;
                        },
                        None => {},
                    }
                }
            },
            None => {},
        }
        attempts = attempts + 1;
    }
    Vector3 { x: 0, y: 0, z: 65536 }
}

/// Division of a cube-sample component by a length of at least half a unit
/// stays within two units.
proof fn lemma_unit_div_bounded(a: i64, len: i64)
    requires
        abs_i(a as int) <= 65536,
        32768 <= len,
    ensures
        fx_div_spec(a, len) is Some,
        abs_i(fx_div_spec(a, len)->0 as int) <= 2 * ONE,
{
    let p = a as int * 65536;
    lemma_abs_mul(a as int, 65536);
    lemma_tdiv_abs(p, len as int);
    lemma_mul_left_inequality(131072, 32768, len as int);
    assert(abs_i(p) <= 131072 * (len as int));
    lemma_div_is_ordered(abs_i(p), 131072 * (len as int), len as int);
    lemma_div_multiples_vanish(131072, len as int);
}

/// A random point in the unit disk of the `x`/`y` plane, by rejection
/// sampling (bounded attempts; the center as the last resort).
pub fn random_in_unit_disk() -> (r: Vector3)
    ensures
        abs_i(r.x as int) <= ONE,
        abs_i(r.y as int) <= ONE,
        r.z == 0,
        match length_squared_spec(r) {
            Some(l) => l < ONE,
            None => false,
        },
{
    let mut attempts: u32 = 0;
    while attempts < 64
        invariant
            true,
        decreases 64 - attempts,
    {
        let p = Vector3 { x: random(-65536, 65536), y: random(-65536, 65536), z: 0 };
        match p.length_squared() {
            Some(lensq) => {
                if lensq < 65536 {
                    return p;
                }
            },
            None => {},
        }
        attempts = attempts + 1;
    }
    let center = Vector3 { x: 0, y: 0, z: 0 };
    proof {
        assert(dot_spec(center, center) == Some(0i64));
    }
    center
}

} // verus!
