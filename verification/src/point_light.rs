//! Point lights: a position, a colour and a strength.
//!
//! Colour channels and strength are stored in thousandths, as in the
//! material parameters.

use vstd::prelude::*;
use crate::vec3::Vec3;

verus! {

/// A point light owned by the scene and mutated freely by its hooks.
#[derive(Clone, Copy, PartialEq, Eq, Structural, Debug)]
pub struct PointLight {
    pub position: Vec3,
    pub color: Vec3,
    pub strength: i64,
}

impl PointLight {
    /// A light at the origin, mid-grey, at unit strength.
    pub fn new() -> (r: PointLight)
        ensures
            r == (PointLight {
                position: Vec3 { x: 0i64, y: 0i64, z: 0i64 },
                color: Vec3 { x: 500i64, y: 500i64, z: 500i64 },
                strength: 1_000i64,
            }),
    {
        PointLight {
            position: Vec3 { x: 0, y: 0, z: 0 },
            color: Vec3 { x: 500, y: 500, z: 500 },
            strength: 1_000,
        }
    }
}

} // verus!
