use vstd::prelude::*;
use crate::camera::{initialise_camera, CameraEntity};
use crate::collider::ObjectType;
use crate::entity::MeshRef;
use crate::error::SceneError;
use crate::grid::{generate_grid, grid, representable, valid_parameters};
use crate::lattice::cell_count;
use crate::ratio::Ratio;
use crate::world::{lemma_static_boxes_inert, recorded, static_boxes, Entity, World};

verus! {

/// A key of the keyboard, as far as the session tells keys apart.
#[derive(Debug, Clone, Copy, PartialEq, Eq, Structural)]
pub enum Key {
    /// The key that ends the session.
    Escape,
    /// Any other key, by the host's code for it.
    Other(u32),
}

/// Whether a key went down or came up.
#[derive(Debug, Clone, Copy, PartialEq, Eq, Structural)]
pub enum ElementState {
    Pressed,
    Released,
}

/// An event that the host delivers to the session.
#[derive(Debug, Clone, Copy, PartialEq, Eq)]
pub enum InputEvent {
    /// A key changed state. The host may not know which key it was.
    Keyboard { state: ElementState, key: Option<Key> },
    /// Anything that is not keyboard input.
    Other,
}

/// What the host is to do after an event.
#[derive(Debug, Clone, Copy, PartialEq, Eq, Structural)]
pub enum Signal {
    Continue,
    Quit,
}

/// Where the session stands. `Terminating` is final.
#[derive(Debug, Clone, Copy, PartialEq, Eq, Structural)]
pub enum SessionState {
    Running,
    Terminating,
}

impl InputEvent {
    /// The event is a press of the exit key. A release, another key, an
    /// unknown key and an event that is no keyboard input are not.
    pub open spec fn is_exit_press(&self) -> bool {
        *self == (InputEvent::Keyboard { state: ElementState::Pressed, key: Some(Key::Escape) })
    }
}

/// The step of the session on one event: a running session that receives a
/// press of the exit key terminates and signals the host to quit; any other
/// event, and any event after termination, changes nothing and lets the host
/// continue.
pub open spec fn route(state: SessionState, event: InputEvent) -> (SessionState, Signal) {
    if state == SessionState::Running && event.is_exit_press() {
        (SessionState::Terminating, Signal::Quit)
    } else {
        (state, Signal::Continue)
    }
}

/// Why a session with these parameters cannot start, if it cannot. The
/// lattice parameters are judged before the mesh.
pub open spec fn start_failure(radius: int, cell_size: Ratio, mesh: Option<MeshRef>) -> Option<
    SceneError,
> {
    if !valid_parameters(radius, cell_size) {
        Some(SceneError::PreconditionViolation)
    } else if mesh is None {
        Some(SceneError::AssetLoadFailure)
    } else {
        None
    }
}

/// What a started session has added to the world: the camera, then one
/// static box for every cell of the lattice, last cell first.
pub open spec fn started_entities(radius: int, cell_size: Ratio, mesh: MeshRef) -> Seq<Entity> {
    seq![Entity::Camera(CameraEntity::rig())] + static_boxes(grid(radius, cell_size), mesh)
}

/// The session of the voxel scene.
#[derive(Debug, Clone, Copy, PartialEq, Eq, Structural)]
pub struct ExampleState {
    pub session: SessionState,
    /// The scene has been built. It is built once in a session.
    pub started: bool,
}

impl ExampleState {
    /// A running session whose scene is yet to be built.
    pub fn new() -> (state: ExampleState)
        ensures
            state == (ExampleState { session: SessionState::Running, started: false }),
    {
        ExampleState { session: SessionState::Running, started: false }
    }

    /// Builds the scene: the camera first, then the lattice of static boxes
    /// that share `mesh`, of the given radius and cell size.
    ///
    /// The start fails, and leaves the world and the session as they were,
    /// when the radius or the cell size is not strictly positive or when
    /// there is no mesh.
    pub fn on_start(
        &mut self,
        world: &mut World,
        mesh: Option<MeshRef>,
        radius: i32,
        cell_size: Ratio,
    ) -> (res: Result<(), SceneError>)
        requires
            !old(self).started,
            old(world).wf(),
            valid_parameters(radius as int, cell_size) ==> representable(radius as int, cell_size),
        ensures
            final(self).session == old(self).session,
            final(self).started == (res is Ok),
            final(world).wf(),
            match res {
                Ok(()) => {
                    &&& start_failure(radius as int, cell_size, mesh) is None
                    &&& final(world).collider_registered == recorded(
                        old(world).collider_registered,
                        old(world).entities@.len() + 1,
                    )
                    &&& final(world).contact_channel == recorded(
                        old(world).contact_channel,
                        old(world).entities@.len() + 1,
                    )
                    &&& final(world).entities@ == old(world).entities@ + started_entities(
                        radius as int,
                        cell_size,
                        mesh->Some_0,
                    )
                },
                Err(e) => {
                    &&& start_failure(radius as int, cell_size, mesh) == Some(e)
                    &&& *final(world) == *old(world)
                },
            },
    {
        let comps = match generate_grid(radius, cell_size) {
            Ok(comps) => comps,
            Err(e) => {
                return Err(e);
            },
        };
        if mesh.is_none() {
            return Err(SceneError::AssetLoadFailure);
        }
        initialise_camera(world);
        let spawned = world.spawn_static_boxes(comps, mesh);
        self.started = true;
        assert(final(world).entities@ =~= old(world).entities@ + started_entities(
            radius as int,
            cell_size,
            mesh->Some_0,
        ));
        spawned
    }

    /// Takes one event from the host and says whether the host is to go on.
    pub fn handle_event(&mut self, event: InputEvent) -> (signal: Signal)
        ensures
            (final(self).session, signal) == route(old(self).session, event),
            final(self).started == old(self).started,
    {
        match self.session {
            SessionState::Terminating => Signal::Continue,
            SessionState::Running => match event {
                InputEvent::Keyboard { state: ElementState::Pressed, key: Some(Key::Escape) } => {
                    self.session = SessionState::Terminating;
                    Signal::Quit
                },
                _ => Signal::Continue,
            },
        }
    }
}

/// A started scene holds one camera, which comes first, and after it one
/// static box of category `Box` for every cell of the lattice.
pub proof fn lemma_started_scene(radius: i32, cell_size: Ratio, mesh: MeshRef, i: int)
    requires
        radius > 0,
        1 <= i <= cell_count(radius as int),
    ensures
        started_entities(radius as int, cell_size, mesh).len() == 1 + (2 * radius) * (2 * radius)
            * (2 * radius),
        started_entities(radius as int, cell_size, mesh)[0] == Entity::Camera(CameraEntity::rig()),
        started_entities(radius as int, cell_size, mesh)[i] is Body,
        started_entities(radius as int, cell_size, mesh)[i]->Body_0.is_static(),
        started_entities(radius as int, cell_size, mesh)[i]->Body_0.tag() == ObjectType::Box,
{
    lemma_static_boxes_inert(grid(radius as int, cell_size), mesh, i - 1, i - 1);
}

/// A session that has terminated stays terminated, whatever arrives.
pub proof fn lemma_terminating_is_final(event: InputEvent)
    ensures
        route(SessionState::Terminating, event) == (SessionState::Terminating, Signal::Continue),
{
}

/// A session terminates on an event exactly when it is running and the event
/// is a press of the exit key; the host is told to quit on that event and on
/// no other.
pub proof fn lemma_quit_only_on_exit_press(state: SessionState, event: InputEvent)
    ensures
        route(state, event).1 == Signal::Quit <==> state == SessionState::Running
            && event.is_exit_press(),
        route(state, event).0 == SessionState::Terminating <==> state == SessionState::Terminating
            || event.is_exit_press(),
{
}

} // verus!
