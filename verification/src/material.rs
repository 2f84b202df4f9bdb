//! Material parameters for physically-based shading.
//!
//! Colour channels and scalar material parameters are stored in
//! thousandths, so `500` stands for `0.5` and `150_100` for `150.1`; the
//! renderer divides by a thousand when it uploads them. Texture handles
//! are opaque identifiers owned by the renderer.

use vstd::prelude::*;
use crate::vec3::Vec3;

verus! {

/// The texture slots a material can toggle.
#[derive(Clone, Copy, PartialEq, Eq, Structural, Debug)]
pub enum TextureType {
    DIFFUSE,
    NORMAL,
    ARM,
}

/// One texture slot: an optional renderer-owned handle, an enable flag,
/// and a tiling scale in thousandths.
#[derive(Clone, Copy, PartialEq, Eq, Structural, Debug)]
pub struct Texture {
    pub tex: Option<u32>,
    pub enabled: bool,
    pub scale: i64,
}

impl Texture {
    /// An empty, disabled slot with unit scale.
    pub fn new() -> (r: Texture)
        ensures
            r == (Texture { tex: Option::<u32>::None, enabled: false, scale: 1_000i64 }),
    {
        Texture { tex: None, enabled: false, scale: 1_000 }
    }
}

/// The material capability an entity carries; concrete materials decide
/// what toggling a texture slot means.
pub trait Material {
    fn toggle_map(&mut self, t: TextureType);
}

/// A physically-based material: albedo colour, metallic, roughness and
/// ambient-occlusion parameters, and three texture slots. All scalars are
/// in thousandths.
#[derive(Clone, Copy, PartialEq, Eq, Structural, Debug)]
pub struct Physical {
    pub albedo: Vec3,
    pub metallic: i64,
    pub roughness: i64,
    pub ao: i64,
    pub diffuse_texture: Texture,
    pub normal_texture: Texture,
    pub arm_texture: Texture,
}

impl Physical {
    /// A material with the given parameters and empty texture slots.
    pub fn new(a: Vec3, m: i64, r: i64, ao: i64) -> (p: Physical)
        ensures
            p.albedo == a,
            p.metallic == m,
            p.roughness == r,
            p.ao == ao,
            p.diffuse_texture == (Texture { tex: Option::<u32>::None, enabled: false, scale: 1_000i64 }),
            p.normal_texture == (Texture { tex: Option::<u32>::None, enabled: false, scale: 1_000i64 }),
            p.arm_texture == (Texture { tex: Option::<u32>::None, enabled: false, scale: 1_000i64 }),
    {
        Physical {
            albedo: a,
            metallic: m,
            roughness: r,
            ao: ao,
            diffuse_texture: Texture::new(),
            normal_texture: Texture::new(),
            arm_texture: Texture::new(),
        }
    }

    /// A neutral grey material with every parameter at one half.
    pub fn default() -> (p: Physical)
        ensures
            p.albedo == (Vec3 { x: 500i64, y: 500i64, z: 500i64 }),
            p.metallic == 500,
            p.roughness == 500,
            p.ao == 500,
            p.diffuse_texture == (Texture { tex: Option::<u32>::None, enabled: false, scale: 1_000i64 }),
            p.normal_texture == (Texture { tex: Option::<u32>::None, enabled: false, scale: 1_000i64 }),
            p.arm_texture == (Texture { tex: Option::<u32>::None, enabled: false, scale: 1_000i64 }),
    {
        Physical {
            albedo: Vec3 { x: 500, y: 500, z: 500 },
            metallic: 500,
            roughness: 500,
            ao: 500,
            diffuse_texture: Texture::new(),
            normal_texture: Texture::new(),
            arm_texture: Texture::new(),
        }
    }
}

impl Material for Physical {
    /// Flips the enable flag of the named texture slot and leaves every
    /// other field as it was.
    fn toggle_map(&mut self, t: TextureType)
        ensures
            final(self).albedo == old(self).albedo,
            final(self).metallic == old(self).metallic,
            final(self).roughness == old(self).roughness,
            final(self).ao == old(self).ao,
            t is DIFFUSE ==> final(self).diffuse_texture == (Texture {
                enabled: !old(self).diffuse_texture.enabled,
                ..old(self).diffuse_texture
            }),
            t is NORMAL ==> final(self).normal_texture == (Texture {
                enabled: !old(self).normal_texture.enabled,
                ..old(self).normal_texture
            }),
            t is ARM ==> final(self).arm_texture == (Texture {
                enabled: !old(self).arm_texture.enabled,
                ..old(self).arm_texture
            }),
            !(t is DIFFUSE) ==> final(self).diffuse_texture == old(self).diffuse_texture,
            !(t is NORMAL) ==> final(self).normal_texture == old(self).normal_texture,
            !(t is ARM) ==> final(self).arm_texture == old(self).arm_texture,
    {
        match t {
            TextureType::DIFFUSE => {
                self.diffuse_texture.enabled = !self.diffuse_texture.enabled;
            },
            TextureType::NORMAL => {
                self.normal_texture.enabled = !self.normal_texture.enabled;
            },
            TextureType::ARM => {
                self.arm_texture.enabled = !self.arm_texture.enabled;
            },
        }
    }
}

} // verus!
