//! The optional directional light: a direction and a colour.
//!
//! Colour channels are stored in thousandths, as in the material
//! parameters.

use vstd::prelude::*;
use crate::vec3::Vec3;

verus! {

/// A directional light; the scene owns at most one.
#[derive(Clone, Copy, PartialEq, Eq, Structural, Debug)]
pub struct DirectionalLight {
    pub color: Vec3,
    pub direction: Vec3,
}

impl DirectionalLight {
    /// A mid-grey light shining along the positive `z` axis.
    pub fn new() -> (r: DirectionalLight)
        ensures
            r == (DirectionalLight {
                color: Vec3 { x: 500i64, y: 500i64, z: 500i64 },
                direction: Vec3 { x: 0i64, y: 0i64, z: 1i64 },
            }),
    {
        DirectionalLight {
            color: Vec3 { x: 500, y: 500, z: 500 },
            direction: Vec3 { x: 0, y: 0, z: 1 },
        }
    }
}

} // verus!
