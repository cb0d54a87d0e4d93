use vstd::prelude::*;
use crate::collider::ObjectType;
use crate::geometry::{Quaternion, Vector3};
use crate::ratio::Ratio;

verus! {

/// How much of a contact is computed when two shapes touch.
#[derive(Debug, Clone, Copy, PartialEq, Eq, Structural)]
pub enum CollisionStrategy {
    /// The full contact is resolved.
    FullResolution,
    /// Only the fact that the shapes touch is reported.
    CollisionOnly,
}

/// How a shape is sampled over a time step.
#[derive(Debug, Clone, Copy, PartialEq, Eq, Structural)]
pub enum CollisionMode {
    /// At the end of the step only.
    Discrete,
    /// Along the whole path of the step.
    Continuous,
}

/// An axis-aligned box centred on the origin of its body, reaching
/// `half_extent` to either side on every axis.
#[derive(Debug, Clone, Copy, PartialEq, Eq, Structural)]
pub struct Cuboid {
    pub half_extent: Vector3,
}

impl Cuboid {
    /// The half extents are well-formed fractions, none of them negative.
    pub open spec fn wf(&self) -> bool {
        &&& self.half_extent.wf()
        &&& self.half_extent.x.num >= 0
        &&& self.half_extent.y.num >= 0
        &&& self.half_extent.z.num >= 0
    }

    /// The cube that reaches `n` to either side on every axis.
    pub open spec fn cube(n: int) -> Cuboid {
        Cuboid { half_extent: Vector3::uniform(n) }
    }
}

/// An axis-aligned bounding box, by its least and greatest corner.
#[derive(Debug, Clone, Copy, PartialEq, Eq, Structural)]
pub struct BoundingVolume {
    pub min: Vector3,
    pub max: Vector3,
}

impl BoundingVolume {
    /// The box holds every point of the cuboid.
    pub open spec fn encloses(&self, primitive: Cuboid) -> bool {
        &&& self.min.wf() && self.max.wf()
        &&& self.min.x.value() <= 0real - primitive.half_extent.x.value()
        &&& self.min.y.value() <= 0real - primitive.half_extent.y.value()
        &&& self.min.z.value() <= 0real - primitive.half_extent.z.value()
        &&& primitive.half_extent.x.value() <= self.max.x.value()
        &&& primitive.half_extent.y.value() <= self.max.y.value()
        &&& primitive.half_extent.z.value() <= self.max.z.value()
    }

    /// The smallest box around the cuboid.
    pub open spec fn around(primitive: Cuboid) -> BoundingVolume {
        BoundingVolume { min: primitive.half_extent.opposite(), max: primitive.half_extent }
    }

    /// Computes the smallest box around the cuboid.
    pub fn of_cuboid(primitive: &Cuboid) -> (bound: BoundingVolume)
        requires
            primitive.wf(),
        ensures
            bound == Self::around(*primitive),
            bound.encloses(*primitive),
    {
        proof {
            Self::lemma_around_encloses(*primitive);
        }
        BoundingVolume {
            min: Vector3 {
                x: primitive.half_extent.x.negated(),
                y: primitive.half_extent.y.negated(),
                z: primitive.half_extent.z.negated(),
            },
            max: primitive.half_extent,
        }
    }

    /// The smallest box around a cuboid encloses it.
    pub proof fn lemma_around_encloses(primitive: Cuboid)
        requires
            primitive.wf(),
        ensures
            Self::around(primitive).encloses(primitive),
    {
        Ratio::lemma_opposite_value(primitive.half_extent.x);
        Ratio::lemma_opposite_value(primitive.half_extent.y);
        Ratio::lemma_opposite_value(primitive.half_extent.z);
    }
}

/// A complete collision object: what it is made of, how contacts with it are
/// found and resolved, the box that bounds it, and its category.
#[derive(Debug, Clone, Copy, PartialEq, Eq, Structural)]
pub struct CollisionShape {
    pub strategy: CollisionStrategy,
    pub mode: CollisionMode,
    pub primitive: Cuboid,
    pub bound: BoundingVolume,
    pub ty: ObjectType,
}

impl CollisionShape {
    /// The primitive is well formed and the bounding volume encloses it.
    pub open spec fn wf(&self) -> bool {
        self.primitive.wf() && self.bound.encloses(self.primitive)
    }

    /// The shape made of one primitive, bounded by the smallest box around it.
    pub open spec fn simple(
        strategy: CollisionStrategy,
        mode: CollisionMode,
        primitive: Cuboid,
        ty: ObjectType,
    ) -> CollisionShape {
        CollisionShape { strategy, mode, primitive, bound: BoundingVolume::around(primitive), ty }
    }

    /// Builds the shape made of one primitive and computes its bounding volume.
    pub fn new_simple_with_type(
        strategy: CollisionStrategy,
        mode: CollisionMode,
        primitive: Cuboid,
        ty: ObjectType,
    ) -> (shape: CollisionShape)
        requires
            primitive.wf(),
        ensures
            shape == Self::simple(strategy, mode, primitive, ty),
            shape.wf(),
    {
        let bound = BoundingVolume::of_cuboid(&primitive);
        CollisionShape { strategy, mode, primitive, bound, ty }
    }
}

/// The reference frame of a rigid body: where it is and how it is turned.
#[derive(Debug, Clone, Copy, PartialEq, Eq, Structural)]
pub struct BodyPose {
    pub position: Vector3,
    pub rotation: Quaternion,
}

impl BodyPose {
    /// The pose at the world origin, not turned.
    pub open spec fn at_origin() -> BodyPose {
        BodyPose { position: Vector3::origin(), rotation: Quaternion::identity() }
    }

    /// The pose at `position`, turned by `rotation`.
    pub fn new(position: Vector3, rotation: Quaternion) -> (pose: BodyPose)
        ensures
            pose == (BodyPose { position, rotation }),
    {
        BodyPose { position, rotation }
    }
}

/// How a body responds to contact.
#[derive(Debug, Clone, Copy, PartialEq, Eq, Structural)]
pub struct Material {
    pub density: Ratio,
    pub restitution: Ratio,
}

impl Material {
    /// Density one, so that mass follows volume alone, and restitution one,
    /// so that a collision keeps all energy.
    pub open spec fn standard() -> Material {
        Material { density: Ratio { num: 1, den: 1 }, restitution: Ratio { num: 1, den: 1 } }
    }
}

impl Default for Material {
    fn default() -> (m: Self)
        ensures
            m == Material::standard(),
    {
        Material { density: Ratio::whole(1), restitution: Ratio::whole(1) }
    }
}

/// The dynamics parameters of a body.
#[derive(Debug, Clone, Copy, PartialEq, Eq, Structural)]
pub struct RigidBody {
    pub material: Material,
    pub gravity_scale: Ratio,
}

impl RigidBody {
    /// The standard material under unscaled gravity.
    pub open spec fn standard() -> RigidBody {
        RigidBody { material: Material::standard(), gravity_scale: Ratio { num: 1, den: 1 } }
    }
}

impl Default for RigidBody {
    fn default() -> (b: Self)
        ensures
            b == RigidBody::standard(),
    {
        RigidBody { material: Material::default(), gravity_scale: Ratio::whole(1) }
    }
}

/// The mass of a body. A body of infinite mass is static: no force moves it.
#[derive(Debug, Clone, Copy, PartialEq, Eq, Structural)]
pub enum Mass {
    Finite(Ratio),
    Infinite,
}

impl Mass {
    /// A finite mass is strictly positive.
    pub open spec fn wf(&self) -> bool {
        match *self {
            Mass::Finite(m) => m.positive(),
            Mass::Infinite => true,
        }
    }

    /// The mass of a static body.
    pub fn infinite() -> (m: Mass)
        ensures
            m == Mass::Infinite,
    {
        Mass::Infinite
    }
}

} // verus!
