//! Cameras: an eye position, a look-at target and an up vector.
//!
//! The view matrix itself is a floating-point concern of the renderer; the
//! core owns the camera state and the re-aiming operation the scene hooks
//! use. Components are exact fractions so that positions such as a target
//! half a unit away are represented without rounding.

use vstd::prelude::*;
use crate::rat::{Rat, RatVec3};

verus! {

/// A camera. The view derived from it is undefined when `position` equals
/// `target`; the core does not special-case that state, it only stores
/// what it is given.
#[derive(Clone, Copy, PartialEq, Eq, Structural, Debug)]
pub struct Camera {
    pub position: RatVec3,
    pub target: RatVec3,
    pub up: RatVec3,
}

impl Camera {
    pub fn new(position: RatVec3, target: RatVec3, up: RatVec3) -> (c: Camera)
        ensures
            c == (Camera { position, target, up }),
    {
        Camera { position, target, up }
    }

    /// A camera at the origin looking half a unit down the positive `z`
    /// axis, with `y` up.
    pub fn default() -> (c: Camera)
        ensures
            c.position == (RatVec3 {
                x: Rat { num: 0, den: 1 },
                y: Rat { num: 0, den: 1 },
                z: Rat { num: 0, den: 1 },
            }),
            c.target == (RatVec3 {
                x: Rat { num: 0, den: 1 },
                y: Rat { num: 0, den: 1 },
                z: Rat { num: 1, den: 2 },
            }),
            c.up == (RatVec3 {
                x: Rat { num: 0, den: 1 },
                y: Rat { num: 1, den: 1 },
                z: Rat { num: 0, den: 1 },
            }),
    {
        Camera {
            position: RatVec3 {
                x: Rat { num: 0, den: 1 },
                y: Rat { num: 0, den: 1 },
                z: Rat { num: 0, den: 1 },
            },
            target: RatVec3 {
                x: Rat { num: 0, den: 1 },
                y: Rat { num: 0, den: 1 },
                z: Rat { num: 1, den: 2 },
            },
            up: RatVec3 {
                x: Rat { num: 0, den: 1 },
                y: Rat { num: 1, den: 1 },
                z: Rat { num: 0, den: 1 },
            },
        }
    }

    /// Re-aims the camera: the target becomes `t`; position and up are
    /// untouched.
    pub fn look_at_target(&mut self, t: RatVec3)
        ensures
            final(self).target == t,
            final(self).position == old(self).position,
            final(self).up == old(self).up,
    {
        self.target = t;
    }
}

} // verus!
