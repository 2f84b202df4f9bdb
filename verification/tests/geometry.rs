//! Bounding-box and ray intersection behaviour on concrete geometry.

use scene_core::collision::{get_bounding_box, Bound, BoundingBox};
use scene_core::cube::Cube;
use scene_core::rat::Rat;
use scene_core::raycast::{Plane, Ray};
use scene_core::vec3::Vec3;

fn floor_box() -> BoundingBox {
    BoundingBox::new(-50, 50, -1, 1, -50, 50)
}

#[test]
fn bounding_box_of_some_vertices() {
    let verts = vec![
        Vec3::new(1, 2, 3),
        Vec3::new(-4, 0, 10),
        Vec3::new(7, -2, 5),
    ];
    let bb = get_bounding_box(&verts);
    assert_eq!(bb.x_min, Bound::Finite(-4));
    assert_eq!(bb.x_max, Bound::Finite(7));
    assert_eq!(bb.y_min, Bound::Finite(-2));
    assert_eq!(bb.y_max, Bound::Finite(2));
    assert_eq!(bb.z_min, Bound::Finite(3));
    assert_eq!(bb.z_max, Bound::Finite(10));
}

#[test]
fn bounding_box_is_order_invariant() {
    let verts = vec![
        Vec3::new(10, -3, 0),
        Vec3::new(-5, 9, 2),
        Vec3::new(0, 0, -8),
        Vec3::new(3, 3, 3),
    ];
    let mut permuted = vec![
        Vec3::new(3, 3, 3),
        Vec3::new(0, 0, -8),
        Vec3::new(10, -3, 0),
        Vec3::new(-5, 9, 2),
    ];
    let bb1 = get_bounding_box(&verts);
    let bb2 = get_bounding_box(&permuted);
    assert_eq!(bb1, bb2);
    permuted.reverse();
    let bb3 = get_bounding_box(&permuted);
    assert_eq!(bb1, bb3);
}

#[test]
fn bounding_box_of_nothing_is_inverted() {
    let verts: Vec<Vec3> = Vec::new();
    let bb = get_bounding_box(&verts);
    assert_eq!(bb.x_min, Bound::PosInf);
    assert_eq!(bb.x_max, Bound::NegInf);
    assert_eq!(bb.y_min, Bound::PosInf);
    assert_eq!(bb.y_max, Bound::NegInf);
    assert_eq!(bb.z_min, Bound::PosInf);
    assert_eq!(bb.z_max, Bound::NegInf);
    assert!(bb.is_empty());
}

#[test]
fn degenerate_box_is_never_hit() {
    let verts: Vec<Vec3> = Vec::new();
    let bb = get_bounding_box(&verts);
    let ray = Ray::new(Vec3::new(0, 100, 0), Vec3::new(0, -1, 0));
    assert!(ray.intersect_bounding_box(&bb).is_none());
    let diagonal = Ray::new(Vec3::new(-10, -10, -10), Vec3::new(1, 1, 1));
    assert!(diagonal.intersect_bounding_box(&bb).is_none());
}

#[test]
fn floor_is_hit_from_above() {
    let bb = floor_box();
    let ray = Ray::new(Vec3::new(0, 100, 0), Vec3::new(0, -1, 0));
    let (entry, exit) = ray.intersect_bounding_box(&bb).expect("the ray points at the floor");
    assert!(entry.eq_ints(0, 1, 0));
    assert!(exit.eq_ints(0, -1, 0));
    // Descending: the entry point sits above the exit point.
    assert!(exit.y.lt(&entry.y));
}

#[test]
fn floor_is_missed_when_pointing_away() {
    let bb = floor_box();
    let ray = Ray::new(Vec3::new(0, 100, 0), Vec3::new(0, 1, 0));
    assert!(ray.intersect_bounding_box(&bb).is_none());
}

#[test]
fn cardinal_rays_hit_the_cube_surface() {
    // A cube spanning [-10, 10] on every axis, aimed at dead centre from
    // outside along each cardinal direction: the entry point is the near
    // face, the exit point the far face, entry first along the ray.
    let bb = BoundingBox::new(-10, 10, -10, 10, -10, 10);
    let cases = [
        (Vec3::new(40, 0, 0), Vec3::new(-1, 0, 0), (10, 0, 0), (-10, 0, 0)),
        (Vec3::new(-40, 0, 0), Vec3::new(1, 0, 0), (-10, 0, 0), (10, 0, 0)),
        (Vec3::new(0, 40, 0), Vec3::new(0, -1, 0), (0, 10, 0), (0, -10, 0)),
        (Vec3::new(0, -40, 0), Vec3::new(0, 1, 0), (0, -10, 0), (0, 10, 0)),
        (Vec3::new(0, 0, 40), Vec3::new(0, 0, -1), (0, 0, 10), (0, 0, -10)),
        (Vec3::new(0, 0, -40), Vec3::new(0, 0, 1), (0, 0, -10), (0, 0, 10)),
    ];
    for (origin, direction, entry_pt, exit_pt) in cases {
        let ray = Ray::new(origin, direction);
        let (entry, exit) = ray.intersect_bounding_box(&bb).expect("cardinal ray hits");
        assert!(entry.eq_ints(entry_pt.0, entry_pt.1, entry_pt.2));
        assert!(exit.eq_ints(exit_pt.0, exit_pt.1, exit_pt.2));
    }
}

#[test]
fn parallel_offset_ray_misses() {
    let bb = floor_box();
    // Runs parallel to the floor plane, 100 units above it.
    let ray = Ray::new(Vec3::new(-200, 100, 0), Vec3::new(1, 0, 0));
    assert!(ray.intersect_bounding_box(&bb).is_none());
    // Aimed past the box on the side.
    let wide = Ray::new(Vec3::new(0, 100, 60), Vec3::new(0, -1, 0));
    assert!(wide.intersect_bounding_box(&bb).is_none());
}

#[test]
fn axis_parallel_ray_is_stable() {
    // Direction (0, 1, 0): both the x and z slabs are crossed "sideways"
    // with a zero direction component; the test must neither panic nor
    // produce an undefined point.
    let bb = BoundingBox::new(-50, 50, -1, 1, -50, 50);
    let ray = Ray::new(Vec3::new(3, -100, 7), Vec3::new(0, 1, 0));
    let (entry, exit) = ray.intersect_bounding_box(&bb).expect("hits from below");
    assert!(entry.eq_ints(3, -1, 7));
    assert!(exit.eq_ints(3, 1, 7));
    // Shifted outside the x slab, the same direction misses.
    let outside = Ray::new(Vec3::new(51, -100, 7), Vec3::new(0, 1, 0));
    assert!(outside.intersect_bounding_box(&bb).is_none());
}

#[test]
fn ray_from_inside_reports_entry_behind_origin() {
    let bb = BoundingBox::new(-10, 10, -10, 10, -10, 10);
    let ray = Ray::new(Vec3::new(0, 0, 0), Vec3::new(1, 0, 0));
    let (entry, exit) = ray.intersect_bounding_box(&bb).expect("origin is inside");
    assert!(entry.eq_ints(-10, 0, 0));
    assert!(exit.eq_ints(10, 0, 0));
}

#[test]
fn plane_is_hit_straight_on() {
    // The x/z ground plane, hit from 100 units up while descending.
    let plane = Plane::new(Vec3::new(0, 0, 0), Vec3::new(0, 1, 0));
    let ray = Ray::new(Vec3::new(4, 100, -2), Vec3::new(0, -1, 0));
    let p = ray.intersect_plane(&plane).expect("the ray descends onto the plane");
    assert!(p.eq_ints(4, 0, -2));
}

#[test]
fn plane_parallel_ray_misses() {
    let plane = Plane::new(Vec3::new(0, 0, 0), Vec3::new(0, 1, 0));
    let ray = Ray::new(Vec3::new(0, 5, 0), Vec3::new(1, 0, 0));
    assert!(ray.intersect_plane(&plane).is_none());
}

#[test]
fn plane_behind_origin_misses() {
    let plane = Plane::new(Vec3::new(0, 0, 0), Vec3::new(0, 1, 0));
    let ray = Ray::new(Vec3::new(0, 5, 0), Vec3::new(0, 1, 0));
    assert!(ray.intersect_plane(&plane).is_none());
}

#[test]
fn diagonal_ray_hits_fractionally() {
    // Direction (3, -2, 0) from (0, 10, 0) against the floor: enters the
    // y slab at t = 9/2, so the entry x is 27/2 — an exact fraction.
    let bb = floor_box();
    let ray = Ray::new(Vec3::new(0, 10, 0), Vec3::new(3, -2, 0));
    let (entry, _exit) = ray.intersect_bounding_box(&bb).expect("slanted hit");
    assert_eq!(entry.x.num * 2, 27 * entry.x.den);
    assert!(entry.y.eq_int(1));
    assert!(entry.z.eq_int(0));
}

#[test]
fn cube_mesh_shape() {
    let c = Cube::new();
    assert_eq!(c.vertices.len(), 36);
    assert_eq!(c.normals.len(), 36);
    // The first front-face corner sits at (-1/2, -1/2, 1/2).
    assert!(c.vertices[0].x.equals(&Rat::new(-1, 2)));
    assert!(c.vertices[0].y.equals(&Rat::new(-1, 2)));
    assert!(c.vertices[0].z.equals(&Rat::new(1, 2)));
    assert_eq!(c.normals[0], Vec3::new(0, 0, 1));
    assert_eq!(c.normals[35], Vec3::new(0, -1, 0));
    // Every vertex component lies exactly half a unit from the origin.
    for v in &c.vertices {
        for comp in [&v.x, &v.y, &v.z] {
            assert_eq!(comp.den, 2);
            assert!(comp.num == 1 || comp.num == -1);
        }
    }
}
