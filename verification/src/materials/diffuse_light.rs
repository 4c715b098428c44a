//! Emissive surfaces: never scatter, emit a constant color.

use vstd::prelude::*;
use crate::vec3::Vector3;

verus! {

#[derive(Clone, Copy, PartialEq, Eq, Structural, Debug)]
pub struct DiffuseLight {
    pub color: Vector3,
}

impl DiffuseLight {
    pub fn new(color: Vector3) -> (r: DiffuseLight)
        ensures
            r.color == color,
    {
        DiffuseLight { color }
    }
}

} // verus!
