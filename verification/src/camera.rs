use vstd::prelude::*;
use crate::geometry::{Transform, Vector3};
use crate::ratio::Ratio;
use crate::world::{Entity, World};

verus! {

/// How the camera projects the scene.
#[derive(Debug, Clone, Copy, PartialEq, Eq, Structural)]
pub enum Projection {
    /// A perspective projection, by the ratio of width to height and the
    /// vertical field of view in degrees.
    Perspective { aspect: Ratio, fov_degrees: Ratio },
}

/// The observation camera.
#[derive(Debug, Clone, Copy, PartialEq, Eq, Structural)]
pub struct CameraEntity {
    pub projection: Projection,
    pub transform: Transform,
    /// The marker that lets the host move the camera freely.
    pub fly_control: bool,
}

impl CameraEntity {
    /// The camera of the scene: perspective with aspect 1.3 and a field of
    /// view of 60 degrees, at the origin, free to fly.
    pub open spec fn rig() -> CameraEntity {
        CameraEntity {
            projection: Projection::Perspective {
                aspect: Ratio { num: 13, den: 10 },
                fov_degrees: Ratio { num: 60, den: 1 },
            },
            transform: Transform::identity(),
            fly_control: true,
        }
    }

    /// Builds the camera of the scene.
    pub fn new_rig() -> (camera: CameraEntity)
        ensures
            camera == Self::rig(),
            camera.fly_control,
            camera.transform.translation == Vector3::origin(),
    {
        CameraEntity {
            projection: Projection::Perspective {
                aspect: Ratio { num: 13, den: 10 },
                fov_degrees: Ratio::whole(60),
            },
            transform: Transform::default(),
            fly_control: true,
        }
    }
}

/// Adds the camera of the scene to the world: exactly one entity, and
/// nothing else changes.
pub fn initialise_camera(world: &mut World)
    requires
        old(world).wf(),
    ensures
        final(world).wf(),
        final(world).entities@ == old(world).entities@.push(Entity::Camera(CameraEntity::rig())),
        final(world).entities@.len() == old(world).entities@.len() + 1,
        final(world).entities@.last() matches Entity::Camera(camera) && camera.fly_control
            && camera.transform.translation == Vector3::origin(),
        final(world).collider_registered == old(world).collider_registered,
        final(world).contact_channel == old(world).contact_channel,
{
    world.create_camera(CameraEntity::new_rig());
}

} // verus!
