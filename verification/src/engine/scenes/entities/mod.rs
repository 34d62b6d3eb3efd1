use vstd::prelude::*;

verus! {

/// An entity of a scene, known by a number.
#[derive(Clone, Copy, PartialEq, Eq, Structural, Hash, Debug, PartialOrd, Ord)]
pub struct Entity(usize);

impl Entity {
    /// The entity known by `id`.
    pub fn from_id(id: usize) -> (e: Self)
        ensures
            e.id_spec() == id,
            e == Self::numbered(id),
    {
        Entity(id)
    }

    /// The entity known by `id`.
    pub closed spec fn numbered(id: usize) -> Self {
        Entity(id)
    }

    /// The entity known by `id` is known by `id`, and it is the only one.
    pub proof fn lemma_numbered(id: usize)
        ensures
            Self::numbered(id).id_spec() == id,
            forall|e: Self| e.id_spec() == id ==> e == Self::numbered(id),
    {
    }

    /// The number by which this entity is known.
    pub closed spec fn id_spec(&self) -> usize {
        self.0
    }

    /// The number by which this entity is known.
    pub fn id(&self) -> (r: usize)
        ensures
            r == self.id_spec(),
    {
        self.0
    }
}

} // verus!
