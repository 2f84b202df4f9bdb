//! A verified core for a small 3D scene runtime: transforms, axis-aligned
//! bounding boxes, ray intersection tests, cameras, lights and the scene
//! lifecycle. All geometry is carried in exact integer and rational
//! arithmetic so that every public operation has a proven contract.

pub mod collision;
pub mod cube;
pub mod rat;
pub mod raycast;
pub mod render;
pub mod material;
pub mod camera;
pub mod point_light;
pub mod directional_light;
pub mod name_map;
pub mod scene;
pub mod vec3;
