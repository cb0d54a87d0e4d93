use voxel_scene::camera::{initialise_camera, CameraEntity, Projection};
use voxel_scene::color::Color;
use voxel_scene::entity::{MeshRef, SceneEntity};
use voxel_scene::error::SceneError;
use voxel_scene::geometry::{Transform, Vector3};
use voxel_scene::ratio::Ratio;
use voxel_scene::world::{Entity, World};

fn shade(n: i64) -> Color {
    Color {
        red: Ratio { num: n, den: 8 },
        green: Ratio { num: 0, den: 8 },
        blue: Ratio { num: 0, den: 8 },
        alpha: Ratio { num: 1, den: 1 },
    }
}

fn at(x: i64) -> Transform {
    Transform::from_translation(Vector3 {
        x: Ratio::whole(x),
        y: Ratio::whole(0),
        z: Ratio::whole(0),
    })
}

#[test]
fn new_world_is_empty() {
    let w = World::new();
    assert!(w.entities.is_empty());
    assert_eq!(w.collider_registered, None);
    assert_eq!(w.contact_channel, None);
}

#[test]
fn camera_rig_is_one_entity_at_the_origin_that_can_fly() {
    let mut w = World::new();
    initialise_camera(&mut w);
    assert_eq!(w.entities.len(), 1);
    match w.entities[0] {
        Entity::Camera(c) => {
            assert!(c.fly_control);
            assert_eq!(c.transform.translation, Vector3::zero());
            assert_eq!(c.transform, Transform::default());
            assert_eq!(
                c.projection,
                Projection::Perspective {
                    aspect: Ratio { num: 13, den: 10 },
                    fov_degrees: Ratio { num: 60, den: 1 },
                }
            );
            let Projection::Perspective { aspect, fov_degrees } = c.projection;
            assert_eq!(aspect.num as f32 / aspect.den as f32, 1.3);
            assert_eq!(fov_degrees.num as f32 / fov_degrees.den as f32, 60.0);
        }
        Entity::Body(_) => panic!("the camera rig made a body"),
    }
    assert_eq!(w.collider_registered, None);
    assert_eq!(w.contact_channel, None);
}

#[test]
fn camera_rig_adds_to_what_is_there() {
    let mut w = World::new();
    initialise_camera(&mut w);
    initialise_camera(&mut w);
    assert_eq!(w.entities.len(), 2);
    assert_eq!(w.entities[0], Entity::Camera(CameraEntity::new_rig()));
    assert_eq!(w.entities[1], Entity::Camera(CameraEntity::new_rig()));
}

#[test]
fn preparation_records_how_many_entities_existed() {
    let mut w = World::new();
    w.register_collider();
    assert_eq!(w.collider_registered, Some(0));
    assert_eq!(w.contact_channel, None);
    initialise_camera(&mut w);
    w.ensure_contact_channel();
    assert_eq!(w.collider_registered, Some(0));
    assert_eq!(w.contact_channel, Some(1));
    assert_eq!(w.entities.len(), 1);
}

#[test]
fn the_first_preparation_counts() {
    let mut w = World::new();
    w.register_collider();
    w.ensure_contact_channel();
    initialise_camera(&mut w);
    initialise_camera(&mut w);
    w.register_collider();
    w.ensure_contact_channel();
    assert_eq!(w.collider_registered, Some(0));
    assert_eq!(w.contact_channel, Some(0));
}

#[test]
fn create_body_appends() {
    let mut w = World::new();
    w.register_collider();
    w.ensure_contact_channel();
    w.create_camera(CameraEntity::new_rig());
    let body = SceneEntity::new_static_box(MeshRef { id: 3 }, shade(1), at(1));
    w.create_body(body);
    assert_eq!(w.entities.len(), 2);
    assert_eq!(w.entities[0], Entity::Camera(CameraEntity::new_rig()));
    assert_eq!(w.entities[1], Entity::Body(body));
}

#[test]
fn spawn_makes_one_box_per_cell_last_cell_first() {
    let mut w = World::new();
    initialise_camera(&mut w);
    let cells = vec![(shade(1), at(1)), (shade(2), at(2)), (shade(3), at(3))];
    let mesh = MeshRef { id: 42 };
    assert_eq!(w.spawn_static_boxes(cells.clone(), Some(mesh)), Ok(()));
    assert_eq!(w.collider_registered, Some(1));
    assert_eq!(w.contact_channel, Some(1));
    assert_eq!(w.entities.len(), 4);
    assert_eq!(w.entities[0], Entity::Camera(CameraEntity::new_rig()));
    for i in 0..3 {
        let (color, transform) = cells[2 - i];
        assert_eq!(
            w.entities[1 + i],
            Entity::Body(SceneEntity::new_static_box(mesh, color, transform))
        );
    }
}

#[test]
fn spawn_of_no_cells_still_registers() {
    let mut w = World::new();
    assert_eq!(w.spawn_static_boxes(Vec::new(), Some(MeshRef { id: 0 })), Ok(()));
    assert_eq!(w.collider_registered, Some(0));
    assert_eq!(w.contact_channel, Some(0));
    assert!(w.entities.is_empty());
}

#[test]
fn spawn_without_a_mesh_changes_nothing() {
    let mut w = World::new();
    initialise_camera(&mut w);
    let cells = vec![(shade(1), at(1)), (shade(2), at(2))];
    assert_eq!(w.spawn_static_boxes(cells, None), Err(SceneError::AssetLoadFailure));
    assert_eq!(w.entities.len(), 1);
    assert_eq!(w.collider_registered, None);
    assert_eq!(w.contact_channel, None);
}

#[test]
fn spawn_keeps_an_earlier_preparation() {
    let mut w = World::new();
    w.register_collider();
    initialise_camera(&mut w);
    let cells = vec![(shade(1), at(1))];
    assert_eq!(w.spawn_static_boxes(cells, Some(MeshRef { id: 0 })), Ok(()));
    assert_eq!(w.collider_registered, Some(0));
    assert_eq!(w.contact_channel, Some(1));
    assert_eq!(w.entities.len(), 2);
}
