use vstd::prelude::*;

verus! {

/// An entity of a scene, identified by a 64-bit number.
#[derive(Clone, Copy, PartialEq, Eq, Structural, Debug)]
pub struct Entity(u64);

impl Entity {
    /// The entity with the given number.
    pub fn from_id(id: u64) -> (e: Entity)
        ensures
            e.id_spec() == id,
            e == Self::numbered(id),
    {
        Entity(id)
    }

    /// The entity known by `id`.
    pub closed spec fn numbered(id: u64) -> Self {
        Entity(id)
    }

    /// The entity known by `id` is known by `id`, and it is the only one.
    pub proof fn lemma_numbered(id: u64)
        ensures
            Self::numbered(id).id_spec() == id,
            forall|e: Self| e.id_spec() == id ==> e == Self::numbered(id),
    {
    }

    pub closed spec fn id_spec(&self) -> u64 {
        self.0
    }

    /// The number that identifies this entity.
    pub fn id(&self) -> (r: u64)
        ensures
            r == self.id_spec(),
    {
        self.0
    }
}

} // verus!
