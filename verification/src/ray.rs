//! Rays and parameter intervals.

use vstd::prelude::*;
use crate::math::{add_i64, add_i64_spec, sub_i64, sub_i64_spec, div_scalar, tdiv};
use crate::vec3::{Vector3, v_add_spec, v_scale_spec};

verus! {

/// A half-open interval `[min, max)` of ray parameters.
#[derive(Clone, Copy, PartialEq, Eq, Structural, Debug)]
pub struct Interval {
    pub min: i64,
    pub max: i64,
}

pub open spec fn interval_contains(i: Interval, t: i64) -> bool {
    i.min <= t < i.max
}

impl Interval {
    pub fn new(min: i64, max: i64) -> (r: Interval)
        ensures
            r == (Interval { min, max }),
    {
        Interval { min, max }
    }

    pub fn contains(&self, t: i64) -> (r: bool)
        ensures
            r == interval_contains(*self, t),
    {
        self.min <= t && t < self.max
    }
}

/// The envelope of two intervals: the smaller start and the larger end.
pub fn new_interval(a: Interval, b: Interval) -> (r: Interval)
    ensures
        r.min == if a.min <= b.min {
            a.min
        } else {
            b.min
        },
        r.max == if a.max >= b.max {
            a.max
        } else {
            b.max
        },
{
    let min: i64 = if a.min <= b.min {
        a.min
    } else {
        b.min
    };
    let max: i64 = if a.max >= b.max {
        a.max
    } else {
        b.max
    };
    Interval { min, max }
}

/// Both ends pushed outward by half of `delta`; `None` when an end leaves
/// the representable range.
pub open spec fn expand_spec(r: Interval, delta: i64) -> Option<Interval> {
    let pad = tdiv(delta as int, 2) as i64;
    match (sub_i64_spec(r.min, pad), add_i64_spec(r.max, pad)) {
        (Some(min), Some(max)) => Some(Interval { min, max }),
        _ => None,
    }
}

pub fn expand(self_range: Interval, delta: i64) -> (r: Option<Interval>)
    ensures
        r == expand_spec(self_range, delta),
{
    let padding: i64 = div_scalar(delta, 2);
    match (sub_i64(self_range.min, padding), add_i64(self_range.max, padding)) {
        (Some(min), Some(max)) => Some(Interval { min, max }),
        _ => None,
    }
}

/// A parametric ray: `origin + t * direction`.
#[derive(Clone, Copy, PartialEq, Eq, Structural, Debug)]
pub struct Ray {
    pub origin: Vector3,
    pub direction: Vector3,
}

pub open spec fn ray_at_spec(ray: Ray, t: i64) -> Option<Vector3> {
    match v_scale_spec(t, ray.direction) {
        Some(s) => v_add_spec(ray.origin, s),
        None => None,
    }
}

impl Ray {
    pub fn new(origin: Vector3, direction: Vector3) -> (r: Ray)
        ensures
            r == (Ray { origin, direction }),
    {
        Ray { origin, direction }
    }

    /// The point at parameter `t`; `None` on a range degeneracy.
    pub fn at(&self, t: i64) -> (r: Option<Vector3>)
        ensures
            r == ray_at_spec(*self, t),
    {
        match self.direction.scale(t) {
            Some(s) => self.origin.add(s),
            None => None,
        }
    }
}

} // verus!
