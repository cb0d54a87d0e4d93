use vstd::prelude::*;
use crate::collider::ObjectType;
use crate::color::Color;
use crate::geometry::{Quaternion, Transform, Vector3};
use crate::grid::{representable, transform_of, valid_parameters};
use crate::lattice::LatticeCoordinate;
use crate::physics::{
    BodyPose, CollisionMode, CollisionShape, CollisionStrategy, Cuboid, Mass, RigidBody,
};
use crate::ratio::Ratio;

verus! {

/// A reference to a mesh held by the host's asset store. The scene only
/// passes it on; every entity that shares a mesh holds the same reference.
#[derive(Debug, Clone, Copy, PartialEq, Eq, Structural)]
pub struct MeshRef {
    pub id: u64,
}

/// One voxel of the scene: what is drawn (mesh, colour, transform) and what
/// collides (shape, pose, body, mass).
///
/// The pose is the frame of the rigid body. It is set independently of the
/// transform, which places the drawn mesh, and the two need not agree:
/// `pose_diverges` tells whether they do.
#[derive(Debug, Clone, Copy, PartialEq, Eq, Structural)]
pub struct SceneEntity {
    pub mesh: MeshRef,
    pub color: Color,
    pub transform: Transform,
    pub shape: CollisionShape,
    pub pose: BodyPose,
    pub body: RigidBody,
    pub mass: Mass,
}

impl SceneEntity {
    /// The shape is well formed and the mass is valid.
    pub open spec fn wf(&self) -> bool {
        self.shape.wf() && self.mass.wf()
    }

    /// The collision category of the entity.
    pub open spec fn tag(&self) -> ObjectType {
        self.shape.ty
    }

    /// The entity never moves under force.
    pub open spec fn is_static(&self) -> bool {
        self.mass == Mass::Infinite
    }

    /// The body is not posed where the mesh is drawn: the position differs
    /// from the translation, or the two rotations differ.
    pub open spec fn diverges(&self) -> bool {
        !(self.pose.position.same_value(self.transform.translation)
            && self.pose.rotation.same_value(self.transform.rotation))
    }

    /// The static box drawn with `mesh` in `color` at `transform`: a cuboid
    /// of half extent one, resolved in full and sampled discretely, of
    /// category `Box`, with the standard body and infinite mass. The body is
    /// posed at the world origin wherever the transform draws the mesh.
    pub open spec fn static_box(mesh: MeshRef, color: Color, transform: Transform) -> SceneEntity {
        SceneEntity {
            mesh,
            color,
            transform,
            shape: CollisionShape::simple(
                CollisionStrategy::FullResolution,
                CollisionMode::Discrete,
                Cuboid::cube(1),
                ObjectType::Box,
            ),
            pose: BodyPose::at_origin(),
            body: RigidBody::standard(),
            mass: Mass::Infinite,
        }
    }

    /// Assembles the static box drawn with `mesh` in `color` at `transform`.
    pub fn new_static_box(mesh: MeshRef, color: Color, transform: Transform) -> (e: SceneEntity)
        ensures
            e == Self::static_box(mesh, color, transform),
            e.wf(),
    {
        let shape = CollisionShape::new_simple_with_type(
            CollisionStrategy::FullResolution,
            CollisionMode::Discrete,
            Cuboid { half_extent: Vector3::from_value(1) },
            ObjectType::Box,
        );
        SceneEntity {
            mesh,
            color,
            transform,
            shape,
            pose: BodyPose::new(Vector3::zero(), Quaternion::one()),
            body: RigidBody::default(),
            mass: Mass::infinite(),
        }
    }

    /// The collision category of the entity.
    pub fn collider_tag(&self) -> (tag: ObjectType)
        ensures
            tag == self.tag(),
    {
        self.shape.ty
    }

    /// Whether the body is posed somewhere else than the mesh is drawn.
    pub fn pose_diverges(&self) -> (b: bool)
        ensures
            b == self.diverges(),
    {
        !(self.pose.position.has_same_value(&self.transform.translation)
            && self.pose.rotation.has_same_value(&self.transform.rotation))
    }

    /// Whether this entity and `other` are eligible for contact generation.
    pub fn generates_contacts_with(&self, other: &SceneEntity) -> (contacts: bool)
        ensures
            contacts == self.tag().generates_contacts(other.tag()),
    {
        self.shape.ty.should_generate_contacts(&other.shape.ty)
    }
}

/// Among the static boxes of a lattice, the body pose agrees with the
/// transform for the cell at the origin and diverges for every other cell.
pub proof fn lemma_static_box_divergence(
    mesh: MeshRef,
    color: Color,
    coord: LatticeCoordinate,
    radius: i32,
    cell_size: Ratio,
)
    requires
        valid_parameters(radius as int, cell_size),
        representable(radius as int, cell_size),
        coord.within(radius as int),
    ensures
        SceneEntity::static_box(mesh, color, transform_of(coord, cell_size)).diverges() <==> coord
            != (LatticeCoordinate { x: 0, y: 0, z: 0 }),
{
    let n = cell_size.num as int;
    let d = cell_size.den as int;
    let r = radius as int;
    let e = SceneEntity::static_box(mesh, color, transform_of(coord, cell_size));
    lemma_scaled_zero(coord.x as int, r, n);
    lemma_scaled_zero(coord.y as int, r, n);
    lemma_scaled_zero(coord.z as int, r, n);
    lemma_zero_cross(coord.x * n, d);
    lemma_zero_cross(coord.y * n, d);
    lemma_zero_cross(coord.z * n, d);
    assert(e.pose.position.x.same_value(e.transform.translation.x) <==> coord.x == 0);
    assert(e.pose.position.y.same_value(e.transform.translation.y) <==> coord.y == 0);
    assert(e.pose.position.z.same_value(e.transform.translation.z) <==> coord.z == 0);
    assert(e.pose.rotation.same_value(e.transform.rotation));
}

proof fn lemma_zero_cross(num: int, den: int)
    by (nonlinear_arith)
    ensures
        0 * den == num * 1 <==> num == 0,
{
}

proof fn lemma_scaled_zero(component: int, radius: int, num: int)
    by (nonlinear_arith)
    requires
        -radius <= component < radius,
        num > 0,
        radius * num <= i64::MAX,
    ensures
        i64::MIN <= component * num <= i64::MAX,
        component * num == 0 <==> component == 0,
{
}

} // verus!
