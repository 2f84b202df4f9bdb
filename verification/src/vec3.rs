//! Exact integer vectors used for world coordinates.
//!
//! World positions, scales, vertex data and axis-aligned box bounds are
//! carried as `i64` components. Keeping every component within
//! [`COORD_BOUND`] lets the intersection and matrix routines prove that all
//! of their exact rational arithmetic stays inside `i128`.

use vstd::prelude::*;

verus! {

/// Largest magnitude a world coordinate component may have.
pub const COORD_BOUND: i64 = 1_000_000_000;

/// A three-component vector of exact world coordinates.
#[derive(Clone, Copy, PartialEq, Eq, Structural, Debug)]
pub struct Vec3 {
    pub x: i64,
    pub y: i64,
    pub z: i64,
}

/// A two-component vector, used for texture coordinates.
#[derive(Clone, Copy, PartialEq, Eq, Structural, Debug)]
pub struct Vec2 {
    pub x: i64,
    pub y: i64,
}

impl Vec3 {
    /// Every component lies within the world coordinate bound.
    pub open spec fn in_range(self) -> bool {
        &&& -COORD_BOUND <= self.x <= COORD_BOUND
        &&& -COORD_BOUND <= self.y <= COORD_BOUND
        &&& -COORD_BOUND <= self.z <= COORD_BOUND
    }

    pub fn new(x: i64, y: i64, z: i64) -> (v: Vec3)
        ensures
            v == (Vec3 { x, y, z }),
    {
        Vec3 { x, y, z }
    }

    /// The zero vector.
    pub fn zeros() -> (v: Vec3)
        ensures
            v == (Vec3 { x: 0i64, y: 0i64, z: 0i64 }),
    {
        Vec3 { x: 0, y: 0, z: 0 }
    }
}

impl Vec2 {
    pub fn new(x: i64, y: i64) -> (v: Vec2)
        ensures
            v == (Vec2 { x, y }),
    {
        Vec2 { x, y }
    }
}

} // verus!
