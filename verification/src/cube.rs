//! The cube primitive: the thirty-six vertices of a unit cube about the
//! origin — two triangles per face, corners half a unit out along each
//! axis — with matching per-face normals, ready for upload.

use vstd::prelude::*;
use crate::rat::{Rat, RatVec3};
use crate::vec3::Vec3;

verus! {

/// The unit cube's corner picked out by three signs: each component is
/// exactly plus or minus one half.
pub open spec fn cube_corner(sx: int, sy: int, sz: int) -> RatVec3 {
    RatVec3 {
        x: Rat { num: if sx >= 0 { 1i128 } else { -1i128 }, den: 2i128 },
        y: Rat { num: if sy >= 0 { 1i128 } else { -1i128 }, den: 2i128 },
        z: Rat { num: if sz >= 0 { 1i128 } else { -1i128 }, den: 2i128 },
    }
}

/// The cube's vertices, two triangles per face.
pub open spec fn cube_vertices() -> Seq<RatVec3> {
    seq![
        // front face
        cube_corner(-1, -1, 1),
        cube_corner(1, -1, 1),
        cube_corner(1, 1, 1),
        cube_corner(-1, -1, 1),
        cube_corner(1, 1, 1),
        cube_corner(-1, 1, 1),
        // back face
        cube_corner(-1, -1, -1),
        cube_corner(-1, 1, -1),
        cube_corner(1, 1, -1),
        cube_corner(-1, -1, -1),
        cube_corner(1, 1, -1),
        cube_corner(1, -1, -1),
        // left face
        cube_corner(-1, -1, -1),
        cube_corner(-1, -1, 1),
        cube_corner(-1, 1, 1),
        cube_corner(-1, -1, -1),
        cube_corner(-1, 1, 1),
        cube_corner(-1, 1, -1),
        // right face
        cube_corner(1, -1, -1),
        cube_corner(1, 1, -1),
        cube_corner(1, 1, 1),
        cube_corner(1, -1, -1),
        cube_corner(1, 1, 1),
        cube_corner(1, -1, 1),
        // top face
        cube_corner(-1, 1, -1),
        cube_corner(-1, 1, 1),
        cube_corner(1, 1, 1),
        cube_corner(-1, 1, -1),
        cube_corner(1, 1, 1),
        cube_corner(1, 1, -1),
        // bottom face
        cube_corner(-1, -1, -1),
        cube_corner(1, -1, -1),
        cube_corner(1, -1, 1),
        cube_corner(-1, -1, -1),
        cube_corner(1, -1, 1),
        cube_corner(-1, -1, 1),
    ]
}

/// The cube's normals: one unit axis vector per face, repeated for each
/// of the face's six vertices.
pub open spec fn cube_normals() -> Seq<Vec3> {
    seq![
        // front face
        Vec3 { x: 0i64, y: 0i64, z: 1i64 },
        Vec3 { x: 0i64, y: 0i64, z: 1i64 },
        Vec3 { x: 0i64, y: 0i64, z: 1i64 },
        Vec3 { x: 0i64, y: 0i64, z: 1i64 },
        Vec3 { x: 0i64, y: 0i64, z: 1i64 },
        Vec3 { x: 0i64, y: 0i64, z: 1i64 },
        // back face
        Vec3 { x: 0i64, y: 0i64, z: -1i64 },
        Vec3 { x: 0i64, y: 0i64, z: -1i64 },
        Vec3 { x: 0i64, y: 0i64, z: -1i64 },
        Vec3 { x: 0i64, y: 0i64, z: -1i64 },
        Vec3 { x: 0i64, y: 0i64, z: -1i64 },
        Vec3 { x: 0i64, y: 0i64, z: -1i64 },
        // left face
        Vec3 { x: -1i64, y: 0i64, z: 0i64 },
        Vec3 { x: -1i64, y: 0i64, z: 0i64 },
        Vec3 { x: -1i64, y: 0i64, z: 0i64 },
        Vec3 { x: -1i64, y: 0i64, z: 0i64 },
        Vec3 { x: -1i64, y: 0i64, z: 0i64 },
        Vec3 { x: -1i64, y: 0i64, z: 0i64 },
        // right face
        Vec3 { x: 1i64, y: 0i64, z: 0i64 },
        Vec3 { x: 1i64, y: 0i64, z: 0i64 },
        Vec3 { x: 1i64, y: 0i64, z: 0i64 },
        Vec3 { x: 1i64, y: 0i64, z: 0i64 },
        Vec3 { x: 1i64, y: 0i64, z: 0i64 },
        Vec3 { x: 1i64, y: 0i64, z: 0i64 },
        // top face
        Vec3 { x: 0i64, y: 1i64, z: 0i64 },
        Vec3 { x: 0i64, y: 1i64, z: 0i64 },
        Vec3 { x: 0i64, y: 1i64, z: 0i64 },
        Vec3 { x: 0i64, y: 1i64, z: 0i64 },
        Vec3 { x: 0i64, y: 1i64, z: 0i64 },
        Vec3 { x: 0i64, y: 1i64, z: 0i64 },
        // bottom face
        Vec3 { x: 0i64, y: -1i64, z: 0i64 },
        Vec3 { x: 0i64, y: -1i64, z: 0i64 },
        Vec3 { x: 0i64, y: -1i64, z: 0i64 },
        Vec3 { x: 0i64, y: -1i64, z: 0i64 },
        Vec3 { x: 0i64, y: -1i64, z: 0i64 },
        Vec3 { x: 0i64, y: -1i64, z: 0i64 },
    ]
}

/// The unit cube's corner picked out by three signs.
fn corner(sx: i64, sy: i64, sz: i64) -> (r: RatVec3)
    ensures
        r == cube_corner(sx as int, sy as int, sz as int),
{
    RatVec3 {
        x: Rat { num: if sx >= 0 { 1 } else { -1 }, den: 2 },
        y: Rat { num: if sy >= 0 { 1 } else { -1 }, den: 2 },
        z: Rat { num: if sz >= 0 { 1 } else { -1 }, den: 2 },
    }
}

/// A cube mesh: raw vertex and normal arrays for the renderer.
pub struct Cube {
    pub vertices: Vec<RatVec3>,
    pub normals: Vec<Vec3>,
}

impl Cube {
    /// The unit cube: exactly the thirty-six corner and normal entries of
    /// [`cube_vertices`] and [`cube_normals`].
    pub fn new() -> (r: Cube)
        ensures
            r.vertices@ == cube_vertices(),
            r.normals@ == cube_normals(),
            r.vertices@.len() == 36,
            r.normals@.len() == 36,
    {
        let mut vertices: Vec<RatVec3> = Vec::new();
        // front face
        vertices.push(corner(-1, -1, 1));
        vertices.push(corner(1, -1, 1));
        vertices.push(corner(1, 1, 1));
        vertices.push(corner(-1, -1, 1));
        vertices.push(corner(1, 1, 1));
        vertices.push(corner(-1, 1, 1));
        // back face
        vertices.push(corner(-1, -1, -1));
        vertices.push(corner(-1, 1, -1));
        vertices.push(corner(1, 1, -1));
        vertices.push(corner(-1, -1, -1));
        vertices.push(corner(1, 1, -1));
        vertices.push(corner(1, -1, -1));
        // left face
        vertices.push(corner(-1, -1, -1));
        vertices.push(corner(-1, -1, 1));
        vertices.push(corner(-1, 1, 1));
        vertices.push(corner(-1, -1, -1));
        vertices.push(corner(-1, 1, 1));
        vertices.push(corner(-1, 1, -1));
        // right face
        vertices.push(corner(1, -1, -1));
        vertices.push(corner(1, 1, -1));
        vertices.push(corner(1, 1, 1));
        vertices.push(corner(1, -1, -1));
        vertices.push(corner(1, 1, 1));
        vertices.push(corner(1, -1, 1));
        // top face
        vertices.push(corner(-1, 1, -1));
        vertices.push(corner(-1, 1, 1));
        vertices.push(corner(1, 1, 1));
        vertices.push(corner(-1, 1, -1));
        vertices.push(corner(1, 1, 1));
        vertices.push(corner(1, 1, -1));
        // bottom face
        vertices.push(corner(-1, -1, -1));
        vertices.push(corner(1, -1, -1));
        vertices.push(corner(1, -1, 1));
        vertices.push(corner(-1, -1, -1));
        vertices.push(corner(1, -1, 1));
        vertices.push(corner(-1, -1, 1));
        let mut normals: Vec<Vec3> = Vec::new();
        // front face
        normals.push(Vec3::new(0, 0, 1));
        normals.push(Vec3::new(0, 0, 1));
        normals.push(Vec3::new(0, 0, 1));
        normals.push(Vec3::new(0, 0, 1));
        normals.push(Vec3::new(0, 0, 1));
        normals.push(Vec3::new(0, 0, 1));
        // back face
        normals.push(Vec3::new(0, 0, -1));
        normals.push(Vec3::new(0, 0, -1));
        normals.push(Vec3::new(0, 0, -1));
        normals.push(Vec3::new(0, 0, -1));
        normals.push(Vec3::new(0, 0, -1));
        normals.push(Vec3::new(0, 0, -1));
        // left face
        normals.push(Vec3::new(-1, 0, 0));
        normals.push(Vec3::new(-1, 0, 0));
        normals.push(Vec3::new(-1, 0, 0));
        normals.push(Vec3::new(-1, 0, 0));
        normals.push(Vec3::new(-1, 0, 0));
        normals.push(Vec3::new(-1, 0, 0));
        // right face
        normals.push(Vec3::new(1, 0, 0));
        normals.push(Vec3::new(1, 0, 0));
        normals.push(Vec3::new(1, 0, 0));
        normals.push(Vec3::new(1, 0, 0));
        normals.push(Vec3::new(1, 0, 0));
        normals.push(Vec3::new(1, 0, 0));
        // top face
        normals.push(Vec3::new(0, 1, 0));
        normals.push(Vec3::new(0, 1, 0));
        normals.push(Vec3::new(0, 1, 0));
        normals.push(Vec3::new(0, 1, 0));
        normals.push(Vec3::new(0, 1, 0));
        normals.push(Vec3::new(0, 1, 0));
        // bottom face
        normals.push(Vec3::new(0, -1, 0));
        normals.push(Vec3::new(0, -1, 0));
        normals.push(Vec3::new(0, -1, 0));
        normals.push(Vec3::new(0, -1, 0));
        normals.push(Vec3::new(0, -1, 0));
        normals.push(Vec3::new(0, -1, 0));
        proof {
            assert(vertices@ =~= cube_vertices());
            assert(normals@ =~= cube_normals());
        }
        Cube { vertices, normals }
    }
}

} // verus!
