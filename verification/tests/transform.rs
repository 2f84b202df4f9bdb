//! Transform composition and material behaviour on concrete values.

use scene_core::material::{Material, Physical, TextureType};
use scene_core::render::{Model, Quat};
use scene_core::vec3::Vec3;

#[test]
fn model_defaults_are_identity() {
    let m = Model::new();
    assert_eq!(m.position, Vec3::new(0, 0, 0));
    assert_eq!(m.scale, Vec3::new(1, 1, 1));
    assert_eq!(m.rotation, Quat::new(1, 0, 0, 0));
}

#[test]
fn translate_sets_absolute_position() {
    let mut m = Model::new();
    m.translate(Vec3::new(10, 20, 30));
    m.translate(Vec3::new(1, 2, 3));
    // Not additive: the last call wins outright.
    assert_eq!(m.position, Vec3::new(1, 2, 3));
}

#[test]
fn identity_matrix_with_scale_and_translation() {
    let mut m = Model::new();
    m.translate(Vec3::new(5, -7, 9));
    m.scale(Vec3::new(2, 3, 4));
    let mat = m.get_model_matrix();
    // Rotation block: the scale on the diagonal.
    assert!(mat.m00.eq_int(2));
    assert!(mat.m01.eq_int(0));
    assert!(mat.m02.eq_int(0));
    assert!(mat.m10.eq_int(0));
    assert!(mat.m11.eq_int(3));
    assert!(mat.m12.eq_int(0));
    assert!(mat.m20.eq_int(0));
    assert!(mat.m21.eq_int(0));
    assert!(mat.m22.eq_int(4));
    // Scale * Translation puts the scaled position in the last column.
    assert!(mat.m03.eq_int(10));
    assert!(mat.m13.eq_int(-21));
    assert!(mat.m23.eq_int(36));
    // Homogeneous bottom row.
    assert!(mat.m30.eq_int(0));
    assert!(mat.m31.eq_int(0));
    assert!(mat.m32.eq_int(0));
    assert!(mat.m33.eq_int(1));
}

#[test]
fn quarter_turn_about_y() {
    // (1, 0, 1, 0) is an exact (unnormalised) quarter turn about +y: it
    // sends +z to +x and +x to -z.
    let mut m = Model::new();
    m.rotate(Quat::new(1, 0, 1, 0));
    let mat = m.get_model_matrix();
    assert!(mat.m00.eq_int(0));
    assert!(mat.m02.eq_int(1));
    assert!(mat.m11.eq_int(1));
    assert!(mat.m20.eq_int(-1));
    assert!(mat.m22.eq_int(0));
    assert!(mat.m01.eq_int(0));
    assert!(mat.m10.eq_int(0));
    assert!(mat.m12.eq_int(0));
    assert!(mat.m21.eq_int(0));
}

#[test]
fn rotate_accumulates_in_world_space() {
    // Two quarter turns about +y make a half turn: +x goes to -x, +z to
    // -z, +y stays.
    let mut m = Model::new();
    m.rotate(Quat::new(1, 0, 1, 0));
    m.rotate(Quat::new(1, 0, 1, 0));
    // Left-multiplication: (1,0,1,0) * (1,0,1,0) = (0, 0, 2, 0).
    assert_eq!(m.rotation, Quat::new(0, 0, 2, 0));
    let mat = m.get_model_matrix();
    assert!(mat.m00.eq_int(-1));
    assert!(mat.m11.eq_int(1));
    assert!(mat.m22.eq_int(-1));
    assert!(mat.m02.eq_int(0));
    assert!(mat.m20.eq_int(0));
}

#[test]
fn model_matrix_is_reproducible() {
    let build = || {
        let mut m = Model::new();
        m.translate(Vec3::new(12, 0, -4));
        m.scale(Vec3::new(2, 2, 2));
        m.rotate(Quat::new(1, 1, 0, 0));
        m.rotate(Quat::new(1, 0, 1, 0));
        m
    };
    let a = build();
    let b = build();
    // The same call sequence composes bit-identical matrices, and asking
    // twice for the matrix of one transform changes nothing.
    assert_eq!(a.get_model_matrix(), b.get_model_matrix());
    assert_eq!(a.get_model_matrix(), a.get_model_matrix());
}

#[test]
fn toggle_map_flips_only_the_named_slot() {
    let mut p = Physical::new(Vec3::new(500, 0, 0), 3_000, 100, 1_500);
    assert!(!p.diffuse_texture.enabled);
    assert!(!p.normal_texture.enabled);
    assert!(!p.arm_texture.enabled);
    p.toggle_map(TextureType::ARM);
    assert!(p.arm_texture.enabled);
    assert!(!p.diffuse_texture.enabled);
    assert!(!p.normal_texture.enabled);
    p.toggle_map(TextureType::ARM);
    assert!(!p.arm_texture.enabled);
    p.toggle_map(TextureType::NORMAL);
    assert!(p.normal_texture.enabled);
    assert_eq!(p.albedo, Vec3::new(500, 0, 0));
    assert_eq!(p.metallic, 3_000);
    assert_eq!(p.roughness, 100);
    assert_eq!(p.ao, 1_500);
}

#[test]
fn default_material_is_mid_grey() {
    let p = Physical::default();
    assert_eq!(p.albedo, Vec3::new(500, 500, 500));
    assert_eq!(p.metallic, 500);
    assert_eq!(p.roughness, 500);
    assert_eq!(p.ao, 500);
    assert_eq!(p.diffuse_texture.tex, None);
    assert_eq!(p.diffuse_texture.scale, 1_000);
}
