//! Scene lifecycle behaviour: start populates, update mutates state but
//! never the entity keys, events reach the hook in order.

use scene_core::camera::Camera;
use scene_core::collision::Bound;
use scene_core::directional_light::DirectionalLight;
use scene_core::material::Physical;
use scene_core::name_map::NameMap;
use scene_core::point_light::PointLight;
use scene_core::rat::{Rat, RatVec3};
use scene_core::render::{Model, Object, RendererPort};
use scene_core::scene::{InputEvent, Scene, SceneHooks, Settings};
use scene_core::vec3::Vec3;

/// A renderer stand-in: hands out sequential buffer handles and ignores
/// draw traffic.
struct NullRenderer {
    next_handle: u64,
}

impl RendererPort for NullRenderer {
    fn upload(
        &mut self,
        _positions: &Vec<scene_core::vec3::Vec3>,
        _normals: &Vec<scene_core::vec3::Vec3>,
        _uvs: &Vec<scene_core::vec3::Vec2>,
    ) -> u64 {
        self.next_handle += 1;
        self.next_handle
    }

    fn bind(&mut self, _handle: u64) {}

    fn draw(&mut self, _handle: u64, _vertex_count: usize) {}

    fn unbind(&mut self, _handle: u64) {}
}

fn floor_object() -> Object {
    let verts = vec![
        Vec3::new(-50, -1, -50),
        Vec3::new(50, 1, 50),
        Vec3::new(50, -1, -50),
    ];
    let mut o = Object::new(
        Model::new(),
        verts,
        Vec::new(),
        Vec::new(),
        Physical::default(),
    );
    o.init(&mut NullRenderer { next_handle: 0 });
    o
}

fn rat_point(x: i64, y: i64, z: i64) -> RatVec3 {
    RatVec3::new(Rat::from_int(x), Rat::from_int(y), Rat::from_int(z))
}

struct DemoHooks {
    events_seen: Vec<InputEvent>,
}

impl SceneHooks for DemoHooks {
    fn on_start(&mut self, scene: &mut Scene) {
        scene.active_camera = "main".to_string();
        scene.cameras.insert(
            "main".to_string(),
            Camera::new(rat_point(0, 300, 300), rat_point(0, 0, 0), rat_point(0, 1, 0)),
        );
        scene.object_map.insert("floor".to_string(), floor_object());
        let mut light = PointLight::new();
        light.position = Vec3::new(0, 25, 40);
        light.strength = 200_000;
        scene.point_lights.push(light);
    }

    fn on_update(&mut self, scene: &mut Scene) {
        // Advance the first light along x by a function of elapsed time.
        let t = scene.scene_time as i64;
        let light = &mut scene.point_lights[0];
        light.position = Vec3::new(t / 16, light.position.y, light.position.z);
    }

    fn on_event(&mut self, scene: &mut Scene, event: InputEvent) {
        self.events_seen.push(event);
        if let InputEvent::MouseButtonDown { button: _, x, y } = event {
            scene.player_target = Vec3::new(x as i64, 0, y as i64);
        }
    }
}

#[test]
fn start_populates_and_update_keeps_keys() {
    let mut scene = Scene::new();
    let mut hooks = DemoHooks { events_seen: Vec::new() };
    assert_eq!(scene.object_map.len(), 0);

    scene.start(&mut hooks);
    assert!(scene.object_map.contains_key(&"floor".to_string()));
    assert_eq!(scene.object_map.len(), 1);
    assert_eq!(scene.cameras.len(), 1);
    assert_eq!(scene.point_lights.len(), 1);

    scene.advance_clock(160);
    assert_eq!(scene.scene_time, 160);
    scene.update(&mut hooks);

    // The light moved as a function of elapsed time...
    assert_eq!(scene.point_lights[0].position, Vec3::new(10, 25, 40));
    // ...but the entity keys and counts are untouched.
    assert!(scene.object_map.contains_key(&"floor".to_string()));
    assert_eq!(scene.object_map.len(), 1);
    assert_eq!(scene.cameras.len(), 1);
}

#[test]
fn clock_only_moves_forward() {
    let mut scene = Scene::new();
    assert_eq!(scene.scene_time, 0);
    scene.advance_clock(16);
    scene.advance_clock(16);
    scene.advance_clock(0);
    assert_eq!(scene.scene_time, 32);
}

#[test]
fn events_arrive_in_order() {
    let mut scene = Scene::new();
    let mut hooks = DemoHooks { events_seen: Vec::new() };
    scene.start(&mut hooks);
    scene.handle_event(&mut hooks, InputEvent::KeyDown { code: 4 });
    scene.handle_event(&mut hooks, InputEvent::MouseMotion { x: 10, y: 20 });
    scene.handle_event(&mut hooks, InputEvent::MouseButtonDown { button: 1, x: 7, y: -3 });
    assert_eq!(hooks.events_seen.len(), 3);
    assert!(matches!(hooks.events_seen[0], InputEvent::KeyDown { code: 4 }));
    assert!(matches!(hooks.events_seen[1], InputEvent::MouseMotion { x: 10, y: 20 }));
    // The mouse press re-aimed the player target.
    assert_eq!(scene.player_target, Vec3::new(7, 0, -3));
}

#[test]
fn active_camera_is_retrievable() {
    let mut scene = Scene::new();
    let mut hooks = DemoHooks { events_seen: Vec::new() };
    scene.start(&mut hooks);
    let cam = scene.get_active_cam();
    assert_eq!(cam.position, rat_point(0, 300, 300));
    assert_eq!(cam.target, rat_point(0, 0, 0));
}

#[test]
fn camera_look_at_moves_target_only() {
    let mut cam = Camera::default();
    assert!(cam.target.z.equals(&Rat::new(1, 2)));
    cam.look_at_target(rat_point(5, 6, 7));
    assert_eq!(cam.target, rat_point(5, 6, 7));
    assert!(cam.position.x.eq_int(0));
    assert!(cam.up.y.eq_int(1));
}

#[test]
fn entity_init_derives_bounding_box() {
    let o = floor_object();
    assert!(o.buffer_handle.is_some());
    assert_eq!(o.bounding_box.x_min, Bound::Finite(-50));
    assert_eq!(o.bounding_box.x_max, Bound::Finite(50));
    assert_eq!(o.bounding_box.y_min, Bound::Finite(-1));
    assert_eq!(o.bounding_box.y_max, Bound::Finite(1));
    assert_eq!(o.bounding_box.z_min, Bound::Finite(-50));
    assert_eq!(o.bounding_box.z_max, Bound::Finite(50));
}

#[test]
fn entity_before_init_has_no_geometry() {
    let o = Object::new(
        Model::new(),
        vec![Vec3::new(1, 2, 3)],
        Vec::new(),
        Vec::new(),
        Physical::default(),
    );
    assert!(o.bounding_box.is_empty());
    assert!(o.buffer_handle.is_none());
}

#[test]
fn name_map_insert_get_and_overwrite() {
    let mut m: NameMap<i32> = NameMap::new();
    assert_eq!(m.len(), 0);
    assert!(!m.contains_key(&"a".to_string()));
    m.insert("a".to_string(), 1);
    m.insert("b".to_string(), 2);
    assert_eq!(m.len(), 2);
    assert_eq!(m.get(&"a".to_string()), Some(&1));
    assert_eq!(m.get(&"b".to_string()), Some(&2));
    assert_eq!(m.get(&"c".to_string()), None);
    m.insert("a".to_string(), 10);
    assert_eq!(m.len(), 2);
    assert_eq!(m.get(&"a".to_string()), Some(&10));
}

#[test]
fn name_map_get_mut_updates_in_place() {
    let mut m: NameMap<i32> = NameMap::new();
    m.insert("counter".to_string(), 41);
    *m.get_mut(&"counter".to_string()) += 1;
    assert_eq!(m.get(&"counter".to_string()), Some(&42));
    assert_eq!(m.len(), 1);
}

#[test]
fn name_map_iteration_sees_every_entry() {
    let mut m: NameMap<i32> = NameMap::new();
    m.insert("x".to_string(), 1);
    m.insert("y".to_string(), 2);
    let mut total = 0;
    for i in 0..m.len() {
        let (_, v) = m.get_at(i);
        total += *v;
    }
    assert_eq!(total, 3);
}

#[test]
fn settings_default_viewport() {
    let s = Settings::default();
    assert_eq!(s.screen_width, 1200);
    assert_eq!(s.screen_height, 800);
    assert_eq!(s.fovy, 45_000);
    let t = Settings::new(1352, 878, 60_000);
    assert_eq!(t.screen_width, 1352);
    assert_eq!(t.fovy, 60_000);
}

#[test]
fn lights_have_documented_defaults() {
    let p = PointLight::new();
    assert_eq!(p.position, Vec3::new(0, 0, 0));
    assert_eq!(p.color, Vec3::new(500, 500, 500));
    assert_eq!(p.strength, 1_000);
    let d = DirectionalLight::new();
    assert_eq!(d.direction, Vec3::new(0, 0, 1));
    assert_eq!(d.color, Vec3::new(500, 500, 500));
}
