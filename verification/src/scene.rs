//! The scene: entities, cameras, lights, settings and the lifecycle.
//!
//! A scene is driven from outside, one frame at a time: the driver first
//! hands every pending input event to the event hook, in arrival order,
//! then runs the update hook exactly once, then renders. The hooks belong
//! to the scene's author and are given to the lifecycle calls as one
//! strategy value; the scene itself owns the data they mutate.
//!
//! The scene clock counts elapsed milliseconds since the scene started and
//! only ever moves forward.

use vstd::prelude::*;
use crate::camera::Camera;
use crate::directional_light::DirectionalLight;
use crate::name_map::NameMap;
use crate::point_light::PointLight;
use crate::render::Object;
use crate::vec3::Vec3;

verus! {

/// Viewport and projection parameters read by the picking logic. The
/// vertical field of view is stored in thousandths of a degree.
#[derive(Clone, Copy, PartialEq, Eq, Structural, Debug)]
pub struct Settings {
    pub screen_width: i32,
    pub screen_height: i32,
    pub fovy: i64,
}

impl Settings {
    pub fn new(screen_width: i32, screen_height: i32, fovy: i64) -> (r: Settings)
        ensures
            r == (Settings { screen_width, screen_height, fovy }),
    {
        Settings { screen_width, screen_height, fovy }
    }

    /// A 1200 by 800 viewport with a 45-degree vertical field of view.
    pub fn default() -> (r: Settings)
        ensures
            r == (Settings { screen_width: 1200i32, screen_height: 800i32, fovy: 45_000i64 }),
    {
        Settings { screen_width: 1200, screen_height: 800, fovy: 45_000 }
    }
}

/// The discrete input events a scene reacts to. Kinds the hooks do not
/// match on are simply ignored.
#[derive(Clone, Copy, PartialEq, Eq, Structural, Debug)]
pub enum InputEvent {
    Quit,
    WindowResize { width: i32, height: i32 },
    KeyDown { code: i32 },
    MouseButtonDown { button: i32, x: i32, y: i32 },
    MouseMotion { x: i32, y: i32 },
}

/// The three lifecycle hooks a scene author supplies: one strategy value
/// carries all of them. `on_start` conventionally populates entities,
/// cameras and lights; `on_update` runs once per frame; `on_event` runs
/// once per pending input event, in arrival order.
pub trait SceneHooks: Sized {
    fn on_start(&mut self, scene: &mut Scene);

    fn on_update(&mut self, scene: &mut Scene);

    fn on_event(&mut self, scene: &mut Scene, event: InputEvent);
}

/// A scene: the entity and camera collections, lights, viewport settings,
/// the active-camera name, a monotonic clock, and the player's movement
/// target.
pub struct Scene {
    pub scene_time: u64,
    pub active_camera: String,
    pub object_map: NameMap<Object>,
    pub point_lights: Vec<PointLight>,
    pub directional_light: Option<DirectionalLight>,
    pub cameras: NameMap<Camera>,
    pub settings: Settings,
    pub player_target: Vec3,
}

impl Scene {
    /// Both name-keyed collections keep their keys distinct.
    pub open spec fn wf(self) -> bool {
        self.object_map.wf() && self.cameras.wf()
    }

    /// An empty scene: no entities, cameras or lights, default settings,
    /// no active camera, the clock at zero.
    pub fn new() -> (r: Scene)
        ensures
            r.scene_time == 0,
            r.active_camera@ == Seq::<char>::empty(),
            r.object_map@ == Map::<Seq<char>, Object>::empty(),
            r.object_map.entries_spec().len() == 0,
            r.point_lights@ == Seq::<PointLight>::empty(),
            r.directional_light is None,
            r.cameras@ == Map::<Seq<char>, Camera>::empty(),
            r.cameras.entries_spec().len() == 0,
            r.settings == (Settings { screen_width: 1200i32, screen_height: 800i32, fovy: 45_000i64 }),
            r.player_target == (Vec3 { x: 0i64, y: 0i64, z: 0i64 }),
            r.wf(),
    {
        Scene {
            scene_time: 0,
            active_camera: String::new(),
            object_map: NameMap::new(),
            point_lights: Vec::new(),
            directional_light: None,
            cameras: NameMap::new(),
            settings: Settings::default(),
            player_target: Vec3::zeros(),
        }
    }

    /// Starts the scene: invokes the author's `on_start` hook, exactly
    /// once, on this scene. What the scene then holds is whatever the
    /// hook built; starting a second time re-invokes the hook with no
    /// guard against duplicated work.
    pub fn start<H: SceneHooks>(&mut self, hooks: &mut H) {
        hooks.on_start(self);
    }

    /// Runs the author's per-frame `on_update` hook, exactly once.
    pub fn update<H: SceneHooks>(&mut self, hooks: &mut H) {
        hooks.on_update(self);
    }

    /// Hands one input event to the author's `on_event` hook.
    pub fn handle_event<H: SceneHooks>(&mut self, hooks: &mut H, event: InputEvent) {
        hooks.on_event(self, event);
    }

    /// Advances the scene clock; the clock never moves backwards, and
    /// nothing else changes.
    pub fn advance_clock(&mut self, dt_ms: u64)
        requires
            old(self).scene_time + dt_ms <= u64::MAX,
        ensures
            final(self).scene_time == old(self).scene_time + dt_ms,
            old(self).scene_time <= final(self).scene_time,
            final(self).active_camera == old(self).active_camera,
            final(self).object_map == old(self).object_map,
            final(self).point_lights == old(self).point_lights,
            final(self).directional_light == old(self).directional_light,
            final(self).cameras == old(self).cameras,
            final(self).settings == old(self).settings,
            final(self).player_target == old(self).player_target,
    {
        self.scene_time = self.scene_time + dt_ms;
    }

    /// The active camera. Asking for a camera name the scene does not
    /// hold is a scene-authoring bug, so callers establish that the
    /// active name is present — by convention `on_start` populates it.
    pub fn get_active_cam(&self) -> (r: &Camera)
        requires
            self.wf(),
            self.cameras@.dom().contains(self.active_camera@),
        ensures
            *r == self.cameras@[self.active_camera@],
    {
        match self.cameras.get(&self.active_camera) {
            Some(c) => c,
            None => vstd::pervasive::unreached(),
        }
    }
}

} // verus!
