use vstd::prelude::*;
use crate::ratio::Ratio;

verus! {

/// A vector of three exact components.
#[derive(Debug, Clone, Copy, PartialEq, Eq, Structural)]
pub struct Vector3 {
    pub x: Ratio,
    pub y: Ratio,
    pub z: Ratio,
}

impl Vector3 {
    /// Every component is a well-formed fraction.
    pub open spec fn wf(&self) -> bool {
        self.x.wf() && self.y.wf() && self.z.wf()
    }

    /// The vector whose three components are the whole number `n`.
    pub open spec fn uniform(n: int) -> Vector3 {
        Vector3 {
            x: Ratio { num: n as i64, den: 1 },
            y: Ratio { num: n as i64, den: 1 },
            z: Ratio { num: n as i64, den: 1 },
        }
    }

    /// The origin.
    pub open spec fn origin() -> Vector3 {
        Self::uniform(0)
    }

    /// The vector with the sign of every component changed.
    pub open spec fn opposite(&self) -> Vector3 {
        Vector3 { x: self.x.opposite(), y: self.y.opposite(), z: self.z.opposite() }
    }

    /// The two vectors stand for the same point, component by component.
    pub open spec fn same_value(&self, other: Vector3) -> bool {
        self.x.same_value(other.x) && self.y.same_value(other.y) && self.z.same_value(other.z)
    }

    /// Whether the two vectors stand for the same point.
    pub fn has_same_value(&self, other: &Vector3) -> (b: bool)
        ensures
            b == self.same_value(*other),
    {
        self.x.has_same_value(&other.x) && self.y.has_same_value(&other.y)
            && self.z.has_same_value(&other.z)
    }

    /// The vector whose three components are the whole number `n`.
    pub fn from_value(n: i64) -> (v: Vector3)
        ensures
            v == Self::uniform(n as int),
    {
        Vector3 { x: Ratio::whole(n), y: Ratio::whole(n), z: Ratio::whole(n) }
    }

    /// The origin.
    pub fn zero() -> (v: Vector3)
        ensures
            v == Self::origin(),
    {
        Self::from_value(0)
    }
}

/// A rotation, as a quaternion with scalar part `s` and vector part `v`.
#[derive(Debug, Clone, Copy, PartialEq, Eq, Structural)]
pub struct Quaternion {
    pub s: Ratio,
    pub v: Vector3,
}

impl Quaternion {
    /// The rotation that turns nothing.
    pub open spec fn identity() -> Quaternion {
        Quaternion { s: Ratio { num: 1, den: 1 }, v: Vector3::origin() }
    }

    /// The two quaternions have the same components, as numbers.
    pub open spec fn same_value(&self, other: Quaternion) -> bool {
        self.s.same_value(other.s) && self.v.same_value(other.v)
    }

    /// Whether the two quaternions have the same components, as numbers.
    pub fn has_same_value(&self, other: &Quaternion) -> (b: bool)
        ensures
            b == self.same_value(*other),
    {
        self.s.has_same_value(&other.s) && self.v.has_same_value(&other.v)
    }

    /// The rotation that turns nothing.
    pub fn one() -> (q: Quaternion)
        ensures
            q == Self::identity(),
    {
        Quaternion { s: Ratio::whole(1), v: Vector3::zero() }
    }
}

/// Where an object is drawn: translation, rotation and scale.
#[derive(Debug, Clone, Copy, PartialEq, Eq, Structural)]
pub struct Transform {
    pub translation: Vector3,
    pub rotation: Quaternion,
    pub scale: Vector3,
}

impl Transform {
    /// The transform that moves by `translation` and neither turns nor scales.
    pub open spec fn at(translation: Vector3) -> Transform {
        Transform { translation, rotation: Quaternion::identity(), scale: Vector3::uniform(1) }
    }

    /// The transform that changes nothing.
    pub open spec fn identity() -> Transform {
        Self::at(Vector3::origin())
    }

    /// The transform that moves by `translation` and neither turns nor scales.
    pub fn from_translation(translation: Vector3) -> (t: Transform)
        ensures
            t == Self::at(translation),
    {
        Transform { translation, rotation: Quaternion::one(), scale: Vector3::from_value(1) }
    }
}

impl Default for Transform {
    fn default() -> (t: Self)
        ensures
            t == Transform::identity(),
    {
        Transform::from_translation(Vector3::zero())
    }
}

} // verus!
