//! Fixed-point scalar arithmetic.
//!
//! Every scalar of the library is a signed 64-bit raw value denoting
//! `raw / ONE` with `ONE = 65536` (a Q47.16 fixed-point number).
//! Arithmetic is carried out in 128-bit intermediates and checked on the way
//! back into the 64-bit range: an operation whose true result does not fit
//! returns `None`, which the geometric and shading code treats as a plain
//! numeric degeneracy (a miss, or an absorbed ray).

use vstd::prelude::*;
use vstd::arithmetic::div_mod::{
    lemma_div_nonincreasing, lemma_div_is_ordered, lemma_div_pos_is_pos,
    lemma_div_multiples_vanish, lemma_fundamental_div_mod,
};
use vstd::arithmetic::mul::{
    lemma_mul_upper_bound, lemma_mul_unary_negation, lemma_mul_nonnegative,
    lemma_mul_cancels_negatives,
};

verus! {

/// The fixed-point unit: raw values denote `raw / ONE`.
pub const ONE: i64 = 65536;

/// `pi` in fixed point (`3.14159... * 65536`, truncated).
pub const PI_FX: i64 = 205887;

/// `2 * pi` in fixed point.
pub const TAU_FX: i64 = 411774;

/// `pi / 2` in fixed point.
pub const HALF_PI_FX: i64 = 102943;

pub open spec fn abs_i(a: int) -> int {
    if a < 0 {
        -a
    } else {
        a
    }
}

pub open spec fn in_i64(a: int) -> bool {
    i64::MIN <= a <= i64::MAX
}

/// Division truncated toward zero, the semantics of Rust's `/` on signed
/// integers; meaningful only for `b != 0`.
pub open spec fn tdiv(a: int, b: int) -> int
    recommends
        b != 0,
{
    if (a < 0) == (b < 0) {
        abs_i(a) / abs_i(b)
    } else {
        -(abs_i(a) / abs_i(b))
    }
}

/// The remainder matching `tdiv` (it carries the sign of `a`).
pub open spec fn tmod(a: int, b: int) -> int
    recommends
        b != 0,
{
    a - b * tdiv(a, b)
}

/// Division truncated toward zero on 128-bit values, built on unsigned
/// division over the magnitudes.
pub fn div_i128(a: i128, b: i128) -> (r: i128)
    requires
        b != 0,
        a != i128::MIN,
        b != i128::MIN,
    ensures
        r == tdiv(a as int, b as int),
{
    let an: u128 = if a < 0 {
        (-a) as u128
    } else {
        a as u128
    };
    let bn: u128 = if b < 0 {
        (-b) as u128
    } else {
        b as u128
    };
    let q: u128 = an / bn;
    proof {
        assert(an as int == abs_i(a as int));
        assert(bn as int == abs_i(b as int));
        lemma_div_nonincreasing(an as int, bn as int);
        assert(q as int == abs_i(a as int) / abs_i(b as int));
    }
    if (a < 0) != (b < 0) {
        -(q as i128)
    } else {
        q as i128
    }
}

/// Fixed-point product, `None` when the true result leaves the 64-bit range.
pub open spec fn fx_mul_spec(a: i64, b: i64) -> Option<i64> {
    let p = tdiv(a as int * b as int, ONE as int);
    if in_i64(p) {
        Some(p as i64)
    } else {
        None
    }
}

proof fn lemma_i64_product_fits(a: int, b: int)
    requires
        -0x8000_0000_0000_0000 <= a <= 0x7fff_ffff_ffff_ffff,
        -0x8000_0000_0000_0000 <= b <= 0x7fff_ffff_ffff_ffff,
    ensures
        -0x4000_0000_0000_0000_0000_0000_0000_0000 <= a * b
            <= 0x4000_0000_0000_0000_0000_0000_0000_0000,
{
    assert(-0x4000_0000_0000_0000_0000_0000_0000_0000 <= a * b
        <= 0x4000_0000_0000_0000_0000_0000_0000_0000) by (nonlinear_arith)
        requires
            -0x8000_0000_0000_0000 <= a <= 0x7fff_ffff_ffff_ffff,
            -0x8000_0000_0000_0000 <= b <= 0x7fff_ffff_ffff_ffff;
}

pub fn fx_mul(a: i64, b: i64) -> (r: Option<i64>)
    ensures
        r == fx_mul_spec(a, b),
{
    proof {
        lemma_i64_product_fits(a as int, b as int);
    }
    let p: i128 = (a as i128) * (b as i128);
    let q: i128 = div_i128(p, 65536);
    if i64::MIN as i128 <= q && q <= i64::MAX as i128 {
        Some(q as i64)
    } else {
        None
    }
}

/// Checked plain integer product.
pub open spec fn mul_i64_spec(a: i64, b: i64) -> Option<i64> {
    if in_i64(a * b) {
        Some((a * b) as i64)
    } else {
        None
    }
}

pub fn mul_i64(a: i64, b: i64) -> (r: Option<i64>)
    ensures
        r == mul_i64_spec(a, b),
{
    proof {
        lemma_i64_product_fits(a as int, b as int);
    }
    let p: i128 = (a as i128) * (b as i128);
    if i64::MIN as i128 <= p && p <= i64::MAX as i128 {
        Some(p as i64)
    } else {
        None
    }
}

/// Fixed-point quotient, `None` on a zero divisor or when the true result
/// leaves the 64-bit range.
pub open spec fn fx_div_spec(a: i64, b: i64) -> Option<i64> {
    if b == 0 {
        None
    } else {
        let p = tdiv(a as int * ONE as int, b as int);
        if in_i64(p) {
            Some(p as i64)
        } else {
            None
        }
    }
}

pub fn fx_div(a: i64, b: i64) -> (r: Option<i64>)
    ensures
        r == fx_div_spec(a, b),
{
    if b == 0 {
        return None;
    }
    let p: i128 = (a as i128) * 65536;
    let q: i128 = div_i128(p, b as i128);
    if i64::MIN as i128 <= q && q <= i64::MAX as i128 {
        Some(q as i64)
    } else {
        None
    }
}

/// `r` is the integer square root of `n`.
pub open spec fn is_isqrt(n: int, r: int) -> bool {
    0 <= r && r * r <= n && n < (r + 1) * (r + 1)
}

/// The integer square root as a spec-level value (unique by
/// `lemma_isqrt_unique`).
pub open spec fn spec_isqrt(n: int) -> int {
    choose|r: int| is_isqrt(n, r)
}

pub proof fn lemma_isqrt_unique(n: int, r1: int, r2: int)
    requires
        is_isqrt(n, r1),
        is_isqrt(n, r2),
    ensures
        r1 == r2,
{
    if r1 < r2 {
        assert(false) by (nonlinear_arith)
            requires
                0 <= r1,
                0 <= r2,
                r1 + 1 <= r2,
                n < (r1 + 1) * (r1 + 1),
                r2 * r2 <= n;
    }
    if r2 < r1 {
        assert(false) by (nonlinear_arith)
            requires
                0 <= r1,
                0 <= r2,
                r2 + 1 <= r1,
                n < (r2 + 1) * (r2 + 1),
                r1 * r1 <= n;
    }
}

pub proof fn lemma_isqrt_val(n: int, r: int)
    requires
        is_isqrt(n, r),
    ensures
        spec_isqrt(n) == r,
{
    assert(is_isqrt(n, spec_isqrt(n))) by {
        assert(exists|x: int| is_isqrt(n, x)) by {
            assert(is_isqrt(n, r));
        }
    }
    lemma_isqrt_unique(n, spec_isqrt(n), r);
}

/// Integer square root by bisection.
pub fn isqrt_u128(n: u128) -> (r: u128)
    ensures
        is_isqrt(n as int, r as int),
{
    let mut lo: u128 = 0;
    let mut hi: u128 = 0x1_0000_0000_0000_0000;
    while lo + 1 < hi
        invariant
            lo < hi,
            hi <= 0x1_0000_0000_0000_0000,
            (lo as int) * (lo as int) <= n as int,
            (n as int) < (hi as int) * (hi as int),
        decreases hi - lo,
    {
        let mid: u128 = lo + (hi - lo) / 2;
        proof {
            assert((mid as int) * (mid as int)
                <= 0xffff_ffff_ffff_fffe_0000_0000_0000_0001) by (nonlinear_arith)
                requires
                    0 <= mid as int <= 0xffff_ffff_ffff_ffff;
        }
        if mid * mid <= n {
            lo = mid;
        } else {
            hi = mid;
        }
    }
    lo
}

/// The fixed-point square root of a nonnegative scalar:
/// `isqrt(x * ONE)`, so that squaring the result roughly returns `x`.
pub open spec fn fx_sqrt_spec(x: i64) -> i64
    recommends
        x >= 0,
{
    spec_isqrt(x as int * ONE as int) as i64
}

pub fn fx_sqrt(x: i64) -> (r: i64)
    requires
        x >= 0,
    ensures
        r == fx_sqrt_spec(x),
        r >= 0,
        is_isqrt(x as int * ONE as int, r as int),
{
    let n: u128 = (x as u128) * 65536;
    let s: u128 = isqrt_u128(n);
    proof {
        assert(s as int <= 0x1_0000_0000_0000) by (nonlinear_arith)
            requires
                0 <= s as int,
                (s as int) * (s as int) <= n as int,
                (n as int) < 0x1_0000_0000_0000_0000_0000;
        lemma_isqrt_val(n as int, s as int);
    }
    s as i64
}

/// The magnitude of a truncated quotient is the quotient of the magnitudes.
pub proof fn lemma_tdiv_abs(a: int, b: int)
    requires
        b != 0,
    ensures
        abs_i(tdiv(a, b)) == abs_i(a) / abs_i(b),
{
    lemma_div_pos_is_pos(abs_i(a), abs_i(b));
}

/// The magnitude of a product is the product of the magnitudes.
pub proof fn lemma_abs_mul(x: int, y: int)
    ensures
        abs_i(x * y) == abs_i(x) * abs_i(y),
{
    if x >= 0 && y >= 0 {
        lemma_mul_nonnegative(x, y);
    } else if x >= 0 {
        lemma_mul_nonnegative(x, -y);
        lemma_mul_unary_negation(x, y);
    } else if y >= 0 {
        lemma_mul_nonnegative(-x, y);
        lemma_mul_unary_negation(x, y);
    } else {
        lemma_mul_nonnegative(-x, -y);
        lemma_mul_cancels_negatives(x, y);
    }
}

/// A fixed-point product of values bounded by `bound_a` and `bound_b` is
/// defined and bounded by `bound_q` whenever `bound_a * bound_b` is at most
/// `ONE * bound_q` and `bound_q` stays in range.
pub proof fn lemma_fx_mul_bounded(a: i64, b: i64, bound_a: int, bound_b: int, bound_q: int)
    requires
        abs_i(a as int) <= bound_a,
        abs_i(b as int) <= bound_b,
        bound_a * bound_b <= 65536 * bound_q,
        bound_q <= 0x7fff_ffff_ffff_ffff,
    ensures
        fx_mul_spec(a, b) is Some,
        abs_i(fx_mul_spec(a, b)->0 as int) <= bound_q,
{
    let p = a as int * b as int;
    lemma_abs_mul(a as int, b as int);
    lemma_mul_upper_bound(abs_i(a as int), bound_a, abs_i(b as int), bound_b);
    lemma_div_is_ordered(abs_i(p), 65536 * bound_q, ONE as int);
    lemma_tdiv_abs(p, ONE as int);
    lemma_div_multiples_vanish(bound_q, 65536);
}

/// Truncated division by a positive divisor is monotone in the dividend.
pub proof fn lemma_tdiv_mono(a1: int, a2: int, b: int)
    requires
        a1 <= a2,
        b > 0,
    ensures
        tdiv(a1, b) <= tdiv(a2, b),
{
    if a1 >= 0 {
        lemma_div_is_ordered(a1, a2, b);
    } else if a2 < 0 {
        lemma_div_is_ordered(-a2, -a1, b);
    } else {
        lemma_div_pos_is_pos(-a1, b);
        lemma_div_pos_is_pos(a2, b);
    }
}

/// Monotonicity of the fixed-point quotient in the dividend.
pub proof fn lemma_tdiv_mono_scaled(a1: i64, a2: i64, b: i64)
    requires
        a1 <= a2,
        b > 0,
    ensures
        tdiv(a1 as int * 65536, b as int) <= tdiv(a2 as int * 65536, b as int),
{
    vstd::arithmetic::mul::lemma_mul_inequality(a1 as int, a2 as int, 65536);
    lemma_tdiv_mono(a1 as int * 65536, a2 as int * 65536, b as int);
}

/// The remainder of truncated division lies strictly inside `(-b, b)` and
/// never opposes the sign of the dividend.
pub proof fn lemma_tmod_range(a: int, b: int)
    requires
        b > 0,
    ensures
        -b < tmod(a, b) < b,
        a >= 0 ==> tmod(a, b) >= 0,
        a < 0 ==> tmod(a, b) <= 0,
{
    lemma_fundamental_div_mod(abs_i(a), b);
    assert(abs_i(a) % b == abs_i(a) - b * (abs_i(a) / b));
    if a >= 0 {
        assert(tmod(a, b) == a - b * (a / b));
    } else {
        assert(tdiv(a, b) == -(abs_i(a) / b));
        lemma_mul_unary_negation(b, abs_i(a) / b);
        assert(tmod(a, b) == -(abs_i(a) - b * (abs_i(a) / b)));
    }
}

/// Truncated division of a scalar by a positive constant.
pub fn div_scalar(a: i64, d: i64) -> (r: i64)
    requires
        d > 0,
    ensures
        r as int == tdiv(a as int, d as int),
{
    let q: i128 = div_i128(a as i128, d as i128);
    proof {
        lemma_tdiv_abs(a as int, d as int);
        lemma_div_nonincreasing(abs_i(a as int), d as int);
    }
    q as i64
}

/// Degrees to radians in fixed point: `d * PI_FX / (180 * ONE)`.
pub open spec fn deg2rad_spec(d: i64) -> i64 {
    tdiv(d as int * PI_FX as int, 11796480) as i64
}

pub fn degrees_to_radians(degree: i64) -> (r: i64)
    ensures
        r == deg2rad_spec(degree),
        abs_i(r as int) <= abs_i(degree as int),
{
    proof {
        lemma_i64_product_fits(degree as int, PI_FX as int);
    }
    let p: i128 = (degree as i128) * 205887;
    let q: i128 = div_i128(p, 11796480);
    proof {
        let ad = abs_i(degree as int);
        lemma_abs_mul(degree as int, 205887);
        lemma_tdiv_abs(p as int, 11796480);
        vstd::arithmetic::mul::lemma_mul_inequality(205887, 11796480, ad);
        lemma_div_is_ordered(ad * 205887, ad * 11796480, 11796480);
        lemma_div_multiples_vanish(ad, 11796480);
    }
    q as i64
}

/// Schlick's reflectance approximation:
/// `r0 + (1 - r0) * (1 - cos)^5` with `r0 = ((1 - n)/(1 + n))^2`,
/// the fifth power associated as `((c^2)^2) * c`.
pub open spec fn reflectance_spec(cosinus: i64, refraction_index: i64) -> Option<i64> {
    match sub_i64_spec(ONE, refraction_index) {
        None => None,
        Some(a) => match add_i64_spec(ONE, refraction_index) {
            None => None,
            Some(b) => match fx_div_spec(a, b) {
                None => None,
                Some(r0) => match fx_mul_spec(r0, r0) {
                    None => None,
                    Some(r0sq) => match sub_i64_spec(ONE, r0sq) {
                        None => None,
                        Some(omr) => match sub_i64_spec(ONE, cosinus) {
                            None => None,
                            Some(omc) => match fx_mul_spec(omc, omc) {
                                None => None,
                                Some(p2) => match fx_mul_spec(p2, p2) {
                                    None => None,
                                    Some(p4) => match fx_mul_spec(p4, omc) {
                                        None => None,
                                        Some(p5) => match fx_mul_spec(omr, p5) {
                                            None => None,
                                            Some(term) => add_i64_spec(r0sq, term),
                                        },
                                    },
                                },
                            },
                        },
                    },
                },
            },
        },
    }
}

/// Checked scalar addition.
pub open spec fn add_i64_spec(a: i64, b: i64) -> Option<i64> {
    if in_i64(a + b) {
        Some((a + b) as i64)
    } else {
        None
    }
}

pub fn add_i64(a: i64, b: i64) -> (r: Option<i64>)
    ensures
        r == add_i64_spec(a, b),
{
    let s: i128 = a as i128 + b as i128;
    if i64::MIN as i128 <= s && s <= i64::MAX as i128 {
        Some(s as i64)
    } else {
        None
    }
}

/// Checked scalar subtraction.
pub open spec fn sub_i64_spec(a: i64, b: i64) -> Option<i64> {
    if in_i64(a - b) {
        Some((a - b) as i64)
    } else {
        None
    }
}

pub fn sub_i64(a: i64, b: i64) -> (r: Option<i64>)
    ensures
        r == sub_i64_spec(a, b),
{
    let s: i128 = a as i128 - b as i128;
    if i64::MIN as i128 <= s && s <= i64::MAX as i128 {
        Some(s as i64)
    } else {
        None
    }
}

pub fn reflectance(cosinus: i64, refraction_index: i64) -> (r: Option<i64>)
    ensures
        r == reflectance_spec(cosinus, refraction_index),
{
    let a = match sub_i64(ONE, refraction_index) {
        Some(v) => v,
        None => { return None; },
    };
    let b = match add_i64(ONE, refraction_index) {
        Some(v) => v,
        None => { return None; },
    };
    let r0 = match fx_div(a, b) {
        Some(v) => v,
        None => { return None; },
    };
    let r0sq = match fx_mul(r0, r0) {
        Some(v) => v,
        None => { return None; },
    };
    let omr = match sub_i64(ONE, r0sq) {
        Some(v) => v,
        None => { return None; },
    };
    let omc = match sub_i64(ONE, cosinus) {
        Some(v) => v,
        None => { return None; },
    };
    let p2 = match fx_mul(omc, omc) {
        Some(v) => v,
        None => { return None; },
    };
    let p4 = match fx_mul(p2, p2) {
        Some(v) => v,
        None => { return None; },
    };
    let p5 = match fx_mul(p4, omc) {
        Some(v) => v,
        None => { return None; },
    };
    let term = match fx_mul(omr, p5) {
        Some(v) => v,
        None => { return None; },
    };
    add_i64(r0sq, term)
}

/// Relies on `rand::random::<u64>` for a fresh pseudo-random 64-bit value;
/// nothing is assumed of it.
#[verifier::external_body]
fn random_bits() -> u64 {
    rand::random::<u64>()
}

/// A uniform-ish fixed-point sample in `[0, 1)`.
pub fn random_float() -> (r: i64)
    ensures
        0 <= r < ONE,
{
    let bits: u64 = random_bits();
    let m: u64 = bits % 65536;
    m as i64
}

/// A random scalar in `[min, max]`.
pub fn random(min: i64, max: i64) -> (r: i64)
    requires
        min <= max,
        abs_i(min as int) <= 0x4_0000_0000_0000,
        abs_i(max as int) <= 0x4_0000_0000_0000,
    ensures
        min <= r <= max,
{
    let u: i64 = random_float();
    let d: i64 = max - min;
    proof {
        lemma_fx_mul_bounded(d, u, 0x8_0000_0000_0000, 65536, 0x8_0000_0000_0000);
        lemma_tdiv_abs(d as int * u as int, ONE as int);
        assert(d as int * u as int >= 0) by (nonlinear_arith)
            requires
                d >= 0,
                u >= 0;
        assert(d as int * u as int <= d as int * (ONE as int)) by (nonlinear_arith)
            requires
                d >= 0,
                0 <= u <= ONE;
        lemma_div_is_ordered(d as int * u as int, d as int * (ONE as int), ONE as int);
        lemma_div_multiples_vanish(d as int, ONE as int);
        lemma_div_pos_is_pos(d as int * u as int, ONE as int);
    }
    let step = match fx_mul(d, u) {
        Some(v) => v,
        None => 0,
    };
    min + step
}

/// A random scalar in `[min, max + 1]`, truncated to its integer part.
pub fn random_int(min: i64, max: i64) -> (r: i32)
    requires
        min <= max,
        abs_i(min as int) <= 0x4000_0000_0000,
        abs_i(max as int) <= 0x4000_0000_0000,
    ensures
        tdiv(min as int, ONE as int) <= r as int <= tdiv(max as int, ONE as int) + 1,
{
    let rr: i64 = random(min, max + 65536);
    let q: i64 = div_scalar(rr, 65536);
    proof {
        lemma_tdiv_mono(min as int, rr as int, ONE as int);
        lemma_tdiv_mono(rr as int, max as int + 65536, ONE as int);
        lemma_tdiv_abs(rr as int, ONE as int);
        lemma_div_nonincreasing(abs_i(rr as int), ONE as int);
        lemma_tdiv_plus_one_le(max as int);
    }
    q as i32
}

proof fn lemma_tdiv_plus_one_le(m: int)
    ensures
        tdiv(m + 65536, 65536) <= tdiv(m, 65536) + 1,
{
    if m >= 0 {
        vstd::arithmetic::div_mod::lemma_div_plus_one(m, 65536);
    } else if m > -65536 {
        vstd::arithmetic::div_mod::lemma_basic_div(m + 65536, 65536);
        vstd::arithmetic::div_mod::lemma_basic_div(-m, 65536);
    } else if m == -65536 {
        assert(65536int / 65536 == 1);
    } else {
        vstd::arithmetic::div_mod::lemma_div_minus_one(-m, 65536);
        vstd::arithmetic::div_mod::lemma_div_pos_is_pos(-m - 65536, 65536);
    }
}

/// Scaling a raw value by `ONE` and dividing by `ONE` is the identity.
pub proof fn lemma_tdiv_one(a: i64)
    ensures
        tdiv(a as int * 65536, 65536) == a as int,
        tdiv(65536 * (a as int), 65536) == a as int,
{
    lemma_abs_mul(a as int, 65536);
    lemma_div_multiples_vanish(abs_i(a as int), 65536);
}

/// Multiplying by the fixed-point unit is the identity.
pub proof fn lemma_fx_mul_one(a: i64)
    ensures
        fx_mul_spec(ONE, a) == Some(a),
        fx_mul_spec(a, ONE) == Some(a),
{
    lemma_tdiv_one(a);
}

/// Multiplying by zero gives zero.
pub proof fn lemma_fx_mul_zero(a: i64)
    ensures
        fx_mul_spec(0, a) == Some(0i64),
        fx_mul_spec(a, 0) == Some(0i64),
{
    vstd::arithmetic::div_mod::lemma_div_of0(65536);
}

/// Negating the dividend negates the truncated quotient.
pub proof fn lemma_tdiv_neg(a: int, b: int)
    requires
        b > 0,
    ensures
        tdiv(-a, b) == -tdiv(a, b),
{
}

/// Scaling by plus or minus the unit and dividing by the unit gives the
/// value with that sign.
pub proof fn lemma_tdiv_one_signed(a: i64, s: i64)
    requires
        s == 65536 || s == -65536,
    ensures
        tdiv(a as int * s as int, 65536) == if s == 65536 {
            a as int
        } else {
            -(a as int)
        },
{
    lemma_tdiv_one(a);
    if s == -65536 {
        lemma_mul_unary_negation(a as int, 65536);
        lemma_tdiv_neg(a as int * 65536, 65536);
    }
}

/// Schlick reflectance at normal incidence: with the cosine exactly one the
/// fifth-power term vanishes, and the reflectance is exactly
/// `((1 - index) / (1 + index))^2`.
pub proof fn lemma_reflectance_normal_incidence(idx: i64)
    requires
        0 < idx <= 0x7fff_ffff_fffe_0000,
    ensures
        match fx_div_spec((ONE - idx) as i64, (ONE + idx) as i64) {
            Some(r0) => reflectance_spec(ONE, idx) == fx_mul_spec(r0, r0),
            None => false,
        },
{
    let a: i64 = (ONE - idx) as i64;
    let b: i64 = (ONE + idx) as i64;
    assert(b > 65536);
    assert(abs_i(a as int) < b);
    lemma_abs_mul(a as int, 65536);
    lemma_tdiv_abs(a as int * 65536, b as int);
    lemma_mul_inequality_helper(abs_i(a as int), b as int);
    lemma_div_is_ordered(abs_i(a as int) * 65536, (b as int) * 65536, b as int);
    lemma_div_multiples_vanish(65536, b as int);
    assert(fx_div_spec(a, b) is Some);
    let r0 = fx_div_spec(a, b)->0;
    assert(abs_i(r0 as int) <= 65536);
    lemma_fx_mul_bounded(r0, r0, 65536, 65536, 65536);
    let r0sq = fx_mul_spec(r0, r0)->0;
    assert(0 <= r0sq) by {
        assert(r0 as int * r0 as int >= 0) by (nonlinear_arith);
        lemma_div_pos_is_pos(r0 as int * r0 as int, 65536);
    }
    assert(sub_i64_spec(ONE, r0sq) is Some);
    let omr = sub_i64_spec(ONE, r0sq)->0;
    assert(sub_i64_spec(ONE, ONE) == Some(0i64));
    assert(fx_mul_spec(0, 0) == Some(0i64));
    lemma_fx_mul_zero(omr);
    assert(add_i64_spec(r0sq, 0) == Some(r0sq));
}

proof fn lemma_mul_inequality_helper(x: int, b: int)
    requires
        0 <= x < b,
    ensures
        x * 65536 <= b * 65536,
{
    vstd::arithmetic::mul::lemma_mul_inequality(x, b, 65536);
}

/// The fixed-point sine and cosine at angle zero are exact.
pub proof fn lemma_trig_zero()
    ensures
        deg2rad_spec(0) == 0,
        spec_sin_fx(0) == 0,
        spec_cos_fx(0) == ONE,
{
    vstd::arithmetic::div_mod::lemma_div_of0(11796480);
    vstd::arithmetic::div_mod::lemma_div_of0(TAU_FX as int);
    vstd::arithmetic::div_mod::lemma_div_of0(65536);
    vstd::arithmetic::div_mod::lemma_div_of0(6);
    vstd::arithmetic::div_mod::lemma_div_of0(120);
    vstd::arithmetic::div_mod::lemma_div_of0(5040);
    vstd::arithmetic::div_mod::lemma_div_of0(2);
    vstd::arithmetic::div_mod::lemma_div_of0(24);
    vstd::arithmetic::div_mod::lemma_div_of0(720);
    assert(tdiv(0, 11796480) == 0);
    assert(tmod(0, TAU_FX as int) == 0 - TAU_FX as int * tdiv(0, TAU_FX as int));
    assert(spec_reduce_angle(0) == 0);
    assert(tdiv(0, 65536) == 0);
    assert(tdiv(0, 6) == 0);
    assert(tdiv(0, 2) == 0);
    assert(spec_poly_sin(0) == 0);
    assert(spec_poly_cos(0) == ONE);
}

/// The angle reduced into `[-PI_FX, PI_FX]` by whole turns.
pub open spec fn spec_reduce_angle(x: i64) -> i64 {
    let m0 = tmod(x as int, TAU_FX as int);
    if m0 > PI_FX {
        (m0 - TAU_FX) as i64
    } else if m0 < -PI_FX {
        (m0 + TAU_FX) as i64
    } else {
        m0 as i64
    }
}

pub fn reduce_angle(x: i64) -> (r: i64)
    ensures
        r == spec_reduce_angle(x),
        -PI_FX <= r <= PI_FX,
{
    let q: i128 = div_i128(x as i128, 411774);
    proof {
        lemma_tmod_range(x as int, 411774);
    }
    let m0: i128 = x as i128 - 411774 * q;
    let m: i64 = m0 as i64;
    if m > PI_FX {
        m - TAU_FX
    } else if m < -PI_FX {
        m + TAU_FX
    } else {
        m
    }
}

/// The odd Taylor polynomial for the sine on `[-pi/2, pi/2]`:
/// `x - x^3/6 + x^5/120 - x^7/5040`, evaluated in fixed point with the
/// powers associated as `x^3 = x^2 x`, `x^5 = x^3 x^2`, `x^7 = x^5 x^2`.
pub open spec fn spec_poly_sin(x: i64) -> i64 {
    let x2 = tdiv(x as int * x as int, ONE as int);
    let x3 = tdiv(x2 * x as int, ONE as int);
    let x5 = tdiv(x3 * x2, ONE as int);
    let x7 = tdiv(x5 * x2, ONE as int);
    (x as int - tdiv(x3, 6) + tdiv(x5, 120) - tdiv(x7, 5040)) as i64
}

fn poly_sin(x: i64) -> (r: i64)
    requires
        abs_i(x as int) <= 102944,
    ensures
        r == spec_poly_sin(x),
        abs_i(r as int) <= 0x100_0000,
{
    proof {
        lemma_fx_mul_bounded(x, x, 131072, 131072, 262144);
    }
    let x2: i64 = match fx_mul(x, x) {
        Some(v) => v,
        None => 0,
    };
    proof {
        lemma_fx_mul_bounded(x2, x, 262144, 131072, 524288);
    }
    let x3: i64 = match fx_mul(x2, x) {
        Some(v) => v,
        None => 0,
    };
    proof {
        lemma_fx_mul_bounded(x3, x2, 524288, 262144, 2097152);
    }
    let x5: i64 = match fx_mul(x3, x2) {
        Some(v) => v,
        None => 0,
    };
    proof {
        lemma_fx_mul_bounded(x5, x2, 2097152, 262144, 8388608);
    }
    let x7: i64 = match fx_mul(x5, x2) {
        Some(v) => v,
        None => 0,
    };
    let t3: i64 = div_scalar(x3, 6);
    let t5: i64 = div_scalar(x5, 120);
    let t7: i64 = div_scalar(x7, 5040);
    proof {
        lemma_tdiv_abs(x3 as int, 6);
        lemma_div_nonincreasing(abs_i(x3 as int), 6);
        lemma_tdiv_abs(x5 as int, 120);
        lemma_div_nonincreasing(abs_i(x5 as int), 120);
        lemma_tdiv_abs(x7 as int, 5040);
        lemma_div_nonincreasing(abs_i(x7 as int), 5040);
    }
    x - t3 + t5 - t7
}

/// The even Taylor polynomial for the cosine on `[-pi/2, pi/2]`:
/// `1 - x^2/2 + x^4/24 - x^6/720`, with `x^4 = x^2 x^2` and `x^6 = x^4 x^2`.
pub open spec fn spec_poly_cos(x: i64) -> i64 {
    let x2 = tdiv(x as int * x as int, ONE as int);
    let x4 = tdiv(x2 * x2, ONE as int);
    let x6 = tdiv(x4 * x2, ONE as int);
    (ONE as int - tdiv(x2, 2) + tdiv(x4, 24) - tdiv(x6, 720)) as i64
}

fn poly_cos(x: i64) -> (r: i64)
    requires
        abs_i(x as int) <= 102944,
    ensures
        r == spec_poly_cos(x),
        abs_i(r as int) <= 0x100_0000,
{
    proof {
        lemma_fx_mul_bounded(x, x, 131072, 131072, 262144);
    }
    let x2: i64 = match fx_mul(x, x) {
        Some(v) => v,
        None => 0,
    };
    proof {
        lemma_fx_mul_bounded(x2, x2, 262144, 262144, 1048576);
    }
    let x4: i64 = match fx_mul(x2, x2) {
        Some(v) => v,
        None => 0,
    };
    proof {
        lemma_fx_mul_bounded(x4, x2, 1048576, 262144, 4194304);
    }
    let x6: i64 = match fx_mul(x4, x2) {
        Some(v) => v,
        None => 0,
    };
    let t2: i64 = div_scalar(x2, 2);
    let t4: i64 = div_scalar(x4, 24);
    let t6: i64 = div_scalar(x6, 720);
    proof {
        lemma_tdiv_abs(x2 as int, 2);
        lemma_div_nonincreasing(abs_i(x2 as int), 2);
        lemma_tdiv_abs(x4 as int, 24);
        lemma_div_nonincreasing(abs_i(x4 as int), 24);
        lemma_tdiv_abs(x6 as int, 720);
        lemma_div_nonincreasing(abs_i(x6 as int), 720);
    }
    65536 - t2 + t4 - t6
}

/// The fixed-point sine: reduction to `[-pi, pi]`, the mirror identities
/// `sin(pi - x) = sin(x)` and `sin(-pi - x) = sin(x)`, then the polynomial.
pub open spec fn spec_sin_fx(x: i64) -> i64 {
    let m = spec_reduce_angle(x);
    let m2 = if m > HALF_PI_FX {
        (PI_FX - m) as i64
    } else if m < -HALF_PI_FX {
        (-PI_FX - m) as i64
    } else {
        m
    };
    spec_poly_sin(m2)
}

pub fn sin_fx(x: i64) -> (r: i64)
    ensures
        r == spec_sin_fx(x),
        abs_i(r as int) <= 0x100_0000,
{
    let m: i64 = reduce_angle(x);
    let m2: i64 = if m > HALF_PI_FX {
        PI_FX - m
    } else if m < -HALF_PI_FX {
        -PI_FX - m
    } else {
        m
    };
    poly_sin(m2)
}

/// The fixed-point cosine: reduction to `[-pi, pi]`, evenness, the mirror
/// identity `cos(x) = -cos(pi - x)` past `pi/2`, then the polynomial.
pub open spec fn spec_cos_fx(x: i64) -> i64 {
    let m = spec_reduce_angle(x);
    let a = abs_i(m as int);
    if a <= HALF_PI_FX {
        spec_poly_cos(a as i64)
    } else {
        (-(spec_poly_cos((PI_FX - a) as i64) as int)) as i64
    }
}

pub fn cos_fx(x: i64) -> (r: i64)
    ensures
        r == spec_cos_fx(x),
        abs_i(r as int) <= 0x100_0000,
{
    let m: i64 = reduce_angle(x);
    let a: i64 = if m < 0 {
        -m
    } else {
        m
    };
    if a <= HALF_PI_FX {
        poly_cos(a)
    } else {
        -poly_cos(PI_FX - a)
    }
}

/// Clamp into `[lo, hi]`, both ends inclusive.
pub open spec fn clamp_spec(x: i64, lo: i64, hi: i64) -> i64
    recommends
        lo <= hi,
{
    if x < lo {
        lo
    } else if x > hi {
        hi
    } else {
        x
    }
}

pub fn clamp_fx(x: i64, lo: i64, hi: i64) -> (r: i64)
    requires
        lo <= hi,
    ensures
        r == clamp_spec(x, lo, hi),
{
    if x < lo {
        lo
    } else if x > hi {
        hi
    } else {
        x
    }
}

} // verus!
