use vstd::prelude::*;

verus! {

/// Collision category of an object in the scene.
///
/// The set is closed; a new category is a new variant.
#[derive(Debug, Clone, Copy, PartialEq, Eq, PartialOrd, Structural)]
pub enum ObjectType {
    Box,
}

impl Default for ObjectType {
    fn default() -> (tag: Self)
        ensures
            tag == ObjectType::Box,
    {
        ObjectType::Box
    }
}

impl ObjectType {
    /// When a pair of categories is eligible for contact generation: exactly
    /// when the two differ. Objects of one category never collide with each
    /// other.
    pub open spec fn generates_contacts(self, other: ObjectType) -> bool {
        self != other
    }

    /// Whether an object of this category and one of `other` should generate
    /// contacts.
    pub fn should_generate_contacts(&self, other: &ObjectType) -> (contacts: bool)
        ensures
            contacts == self.generates_contacts(*other),
    {
        *self != *other
    }

    /// The contact predicate does not depend on the order of its arguments.
    pub proof fn lemma_contacts_symmetric(a: ObjectType, b: ObjectType)
        ensures
            a.generates_contacts(b) == b.generates_contacts(a),
    {
    }

    /// No category generates contacts with itself.
    pub proof fn lemma_no_self_contacts(a: ObjectType)
        ensures
            !a.generates_contacts(a),
    {
    }
}

} // verus!
