use vstd::prelude::*;
use crate::camera::CameraEntity;
use crate::collider::ObjectType;
use crate::color::Color;
use crate::entity::{MeshRef, SceneEntity};
use crate::error::SceneError;
use crate::geometry::Transform;

verus! {

/// An entity of the world, by the set of components it carries.
#[derive(Debug, Clone, Copy, PartialEq, Eq, Structural)]
pub enum Entity {
    Camera(CameraEntity),
    Body(SceneEntity),
}

/// What the scene has put into the world: the entities in the order of their
/// creation, and when the collision subsystem was prepared for them.
///
/// The collision subsystem sees a body only if the collider category was
/// registered and the contact channel existed before the body was made. Each
/// of the two is therefore recorded with the number of entities that existed
/// at that moment, and a host that builds the world from this record can
/// keep the order.
#[derive(Debug, PartialEq, Eq)]
pub struct World {
    /// How many entities existed when the collider category was made known
    /// to the collision subsystem; `None` until then.
    pub collider_registered: Option<usize>,
    /// How many entities existed when the contact event channel was made
    /// sure of; `None` until then.
    pub contact_channel: Option<usize>,
    pub entities: Vec<Entity>,
}

/// The record of a preparation step after it has been taken with `count`
/// entities in the world: the first time counts.
pub open spec fn recorded(previous: Option<usize>, count: nat) -> Option<usize> {
    match previous {
        Some(at) => Some(at),
        None => Some(count as usize),
    }
}

/// The static boxes made from a list of cells, last cell first.
pub open spec fn static_boxes(cells: Seq<(Color, Transform)>, mesh: MeshRef) -> Seq<Entity> {
    Seq::new(
        cells.len(),
        |i: int|
            Entity::Body(
                SceneEntity::static_box(
                    mesh,
                    cells[cells.len() - 1 - i].0,
                    cells[cells.len() - 1 - i].1,
                ),
            ),
    )
}

/// Every entity made from a list of cells is a static body of category
/// `Box`, and no two of them generate contacts with each other.
pub proof fn lemma_static_boxes_inert(cells: Seq<(Color, Transform)>, mesh: MeshRef, i: int, j: int)
    requires
        0 <= i < cells.len(),
        0 <= j < cells.len(),
    ensures
        static_boxes(cells, mesh).len() == cells.len(),
        static_boxes(cells, mesh)[i] is Body,
        static_boxes(cells, mesh)[i]->Body_0.is_static(),
        static_boxes(cells, mesh)[i]->Body_0.tag() == ObjectType::Box,
        !static_boxes(cells, mesh)[i]->Body_0.tag().generates_contacts(
            static_boxes(cells, mesh)[j]->Body_0.tag(),
        ),
{
}

impl World {
    /// Both preparation steps were taken when at most `i` entities existed.
    pub open spec fn prepared_before(&self, i: int) -> bool {
        &&& self.collider_registered matches Some(at) && at <= i
        &&& self.contact_channel matches Some(at) && at <= i
    }

    /// No preparation step is recorded later than now, every body is well
    /// formed, and both steps were taken before the first body was made.
    pub open spec fn wf(&self) -> bool {
        &&& self.collider_registered matches Some(at) ==> at <= self.entities@.len()
        &&& self.contact_channel matches Some(at) ==> at <= self.entities@.len()
        &&& forall|i: int|
            0 <= i < self.entities@.len() ==> (#[trigger] self.entities@[i] matches Entity::Body(
                body,
            ) ==> body.wf() && self.prepared_before(i))
    }

    /// The empty world: no entity, nothing prepared.
    pub fn new() -> (world: World)
        ensures
            world.wf(),
            world.entities@ == Seq::<Entity>::empty(),
            world.collider_registered is None,
            world.contact_channel is None,
    {
        World { collider_registered: None, contact_channel: None, entities: Vec::new() }
    }

    /// Makes the collider category known to the collision subsystem, unless
    /// it is known already.
    pub fn register_collider(&mut self)
        requires
            old(self).wf(),
        ensures
            final(self).wf(),
            final(self).collider_registered == recorded(
                old(self).collider_registered,
                old(self).entities@.len(),
            ),
            final(self).contact_channel == old(self).contact_channel,
            final(self).entities@ == old(self).entities@,
    {
        if self.collider_registered.is_none() {
            self.collider_registered = Some(self.entities.len());
        }
    }

    /// Makes sure that the contact event channel exists.
    pub fn ensure_contact_channel(&mut self)
        requires
            old(self).wf(),
        ensures
            final(self).wf(),
            final(self).contact_channel == recorded(
                old(self).contact_channel,
                old(self).entities@.len(),
            ),
            final(self).collider_registered == old(self).collider_registered,
            final(self).entities@ == old(self).entities@,
    {
        if self.contact_channel.is_none() {
            self.contact_channel = Some(self.entities.len());
        }
    }

    /// Adds a camera.
    pub fn create_camera(&mut self, camera: CameraEntity)
        requires
            old(self).wf(),
        ensures
            final(self).wf(),
            final(self).entities@ == old(self).entities@.push(Entity::Camera(camera)),
            final(self).collider_registered == old(self).collider_registered,
            final(self).contact_channel == old(self).contact_channel,
    {
        self.entities.push(Entity::Camera(camera));
    }

    /// Adds a body to a world that is prepared for bodies.
    pub fn create_body(&mut self, body: SceneEntity)
        requires
            old(self).wf(),
            old(self).collider_registered is Some,
            old(self).contact_channel is Some,
            body.wf(),
        ensures
            final(self).wf(),
            final(self).entities@ == old(self).entities@.push(Entity::Body(body)),
            final(self).collider_registered == old(self).collider_registered,
            final(self).contact_channel == old(self).contact_channel,
    {
        self.entities.push(Entity::Body(body));
    }

    /// Turns every cell into a static box that shares `mesh`, and adds the
    /// boxes to the world, last cell first. The collider category is
    /// registered and the contact channel made sure of before the first box.
    ///
    /// Without a mesh nothing is prepared and nothing is added.
    pub fn spawn_static_boxes(
        &mut self,
        cells: Vec<(Color, Transform)>,
        mesh: Option<MeshRef>,
    ) -> (res: Result<(), SceneError>)
        requires
            old(self).wf(),
        ensures
            final(self).wf(),
            match res {
                Ok(()) => {
                    &&& mesh is Some
                    &&& final(self).collider_registered == recorded(
                        old(self).collider_registered,
                        old(self).entities@.len(),
                    )
                    &&& final(self).contact_channel == recorded(
                        old(self).contact_channel,
                        old(self).entities@.len(),
                    )
                    &&& final(self).entities@ == old(self).entities@ + static_boxes(
                        cells@,
                        mesh->Some_0,
                    )
                },
                Err(e) => {
                    &&& mesh is None
                    &&& e == SceneError::AssetLoadFailure
                    &&& *final(self) == *old(self)
                },
            },
    {
        let cube = match mesh {
            Some(m) => m,
            None => {
                return Err(SceneError::AssetLoadFailure);
            },
        };
        self.register_collider();
        self.ensure_contact_channel();
        let mut comps = cells;
        while comps.len() > 0
            invariant
                self.wf(),
                self.collider_registered == recorded(
                    old(self).collider_registered,
                    old(self).entities@.len(),
                ),
                self.contact_channel == recorded(
                    old(self).contact_channel,
                    old(self).entities@.len(),
                ),
                comps@.len() <= cells@.len(),
                comps@ == cells@.take(comps@.len() as int),
                self.entities@ == old(self).entities@ + static_boxes(cells@, cube).take(
                    cells@.len() - comps@.len(),
                ),
            decreases comps@.len(),
        {
            let ghost done = cells@.len() - comps@.len();
            let c = comps.pop().unwrap();
            let body = SceneEntity::new_static_box(cube, c.0, c.1);
            self.create_body(body);
            assert(self.entities@ =~= old(self).entities@ + static_boxes(cells@, cube).take(
                done + 1,
            ));
        }
        assert(static_boxes(cells@, cube).take(cells@.len() as int) =~= static_boxes(cells@, cube));
        Ok(())
    }
}

} // verus!
