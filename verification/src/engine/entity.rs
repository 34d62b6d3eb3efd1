use vstd::prelude::*;
use core::cmp::Ordering;
use vstd::std_specs::cmp::PartialOrdSpecImpl;
use vstd::std_specs::cmp::PartialOrdSpec;

verus! {

/// The number by which an entity is known.
pub type EntityId = usize;

/// An entity of a scene.
#[derive(Clone, Copy, PartialEq, Eq, Structural, Ord, Hash, Debug)]
pub struct Entity {
    id: EntityId,
}

impl Entity {
    /// The entity known by `id`.
    pub fn from_id(id: EntityId) -> (e: Self)
        ensures
            e.id_spec() == id,
            e == Self::numbered(id),
    {
        Entity { id }
    }

    /// The entity known by `id`.
    pub closed spec fn numbered(id: EntityId) -> Self {
        Entity { id }
    }

    /// The entity known by `id` is known by `id`, and it is the only one.
    pub proof fn lemma_numbered(id: EntityId)
        ensures
            Self::numbered(id).id_spec() == id,
            forall|e: Self| e.id_spec() == id ==> e == Self::numbered(id),
    {
    }

    /// The number by which this entity is known.
    pub closed spec fn id_spec(&self) -> EntityId {
        self.id
    }

    /// The number by which this entity is known.
    pub fn id(&self) -> (r: EntityId)
        ensures
            r == self.id_spec(),
    {
        self.id
    }

    /// Two entities are equal exactly when their numbers are.
    pub proof fn lemma_eq_by_id(a: Self, b: Self)
        ensures
            (a == b) <==> (a.id_spec() == b.id_spec()),
    {
    }
}

impl PartialOrd for Entity {
    /// Entities are ordered by their numbers.
    fn partial_cmp(&self, other: &Self) -> (r: Option<Ordering>) {
        if self.id < other.id {
            Some(Ordering::Less)
        } else if self.id == other.id {
            Some(Ordering::Equal)
        } else {
            Some(Ordering::Greater)
        }
    }
}

impl PartialOrdSpecImpl for Entity {
    open spec fn obeys_partial_cmp_spec() -> bool {
        true
    }

    open spec fn partial_cmp_spec(&self, other: &Self) -> Option<Ordering> {
        if self.id_spec() < other.id_spec() {
            Some(Ordering::Less)
        } else if self.id_spec() == other.id_spec() {
            Some(Ordering::Equal)
        } else {
            Some(Ordering::Greater)
        }
    }
}

/// Law: entities are ordered as their numbers are, and `<` between two
/// entities made from numbers is `<` between the numbers.
pub proof fn lemma_order_by_id(a: Entity, b: Entity)
    ensures
        (PartialOrdSpec::partial_cmp_spec(&a, &b) == Some(Ordering::Less)) <==> a.id_spec() < b.id_spec(),
        (PartialOrdSpec::partial_cmp_spec(&a, &b) == Some(Ordering::Equal)) <==> a.id_spec() == b.id_spec(),
        (PartialOrdSpec::partial_cmp_spec(&a, &b) == Some(Ordering::Greater)) <==> a.id_spec() > b.id_spec(),
{
}

/// Hands out entities numbered 0, 1, 2, ... in turn.
pub struct EntityCreator {
    counter: usize,
}

impl Default for EntityCreator {
    fn default() -> (r: Self)
        ensures
            r.next_id() == 0,
    {
        Self::new()
    }
}

impl EntityCreator {
    /// The number of the next entity to be handed out.
    pub closed spec fn next_id(&self) -> usize {
        self.counter
    }

    /// A creator whose first entity is numbered 0.
    pub fn new() -> (r: Self)
        ensures
            r.next_id() == 0,
    {
        EntityCreator { counter: 0 }
    }

    /// Hands out the next entity.
    pub fn create_entity(&mut self) -> (e: Entity)
        requires
            old(self).next_id() < usize::MAX,
        ensures
            e.id_spec() == old(self).next_id(),
            final(self).next_id() == old(self).next_id() + 1,
    {
        let entity = Entity::from_id(self.counter);
        self.counter += 1;
        entity
    }
}

/// Law: a creator never hands out the same entity twice. `first` was handed
/// out when the creator stood at `c0`, `second` when it stood at `c1`, and
/// the creator had handed out at least one entity between the two (as after
/// `create_entity` gave `first`, its next number is higher).
pub proof fn lemma_created_entities_distinct(c0: EntityCreator, first: Entity, c1: EntityCreator, second: Entity)
    requires
        first.id_spec() == c0.next_id(),
        c0.next_id() < c1.next_id(),
        second.id_spec() == c1.next_id(),
    ensures
        first != second,
{
}

} // verus!
