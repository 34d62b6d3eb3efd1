use vstd::prelude::*;

use crate::ecs_core::component::Component;
use crate::ecs_core::entity::Entity;

verus! {

/// A tuple of component types that entities are created with together.
pub trait Archtype: 'static {}

impl<A: Component> Archtype for (A,) {}

impl<A: Component, B: Component> Archtype for (A, B) {}

impl<A: Component, B: Component, C: Component> Archtype for (A, B, C) {}

impl<A: Component, B: Component, C: Component, D: Component> Archtype for (A, B, C, D) {}

/// The entities created with one archtype, in the order they were added.
#[derive(Debug)]
pub struct ArchtypeCollection<A: Archtype> {
    data: Vec<(Entity, A)>,
}

impl<A: Archtype> View for ArchtypeCollection<A> {
    type V = Seq<(Entity, A)>;

    /// The entities with their components, oldest first.
    closed spec fn view(&self) -> Seq<(Entity, A)> {
        self.data@
    }
}

impl<A: Archtype> Default for ArchtypeCollection<A> {
    fn default() -> (r: Self)
        ensures
            r@ == Seq::<(Entity, A)>::empty(),
    {
        Self::new()
    }
}

impl<A: Archtype> ArchtypeCollection<A> {
    /// No entity yet.
    pub fn new() -> (r: Self)
        ensures
            r@ == Seq::<(Entity, A)>::empty(),
    {
        ArchtypeCollection { data: Vec::new() }
    }

    /// The entities with their components, oldest first.
    pub fn iter(&self) -> (r: &[(Entity, A)])
        ensures
            r@ == self@,
    {
        self.data.as_slice()
    }

    /// The entities with their components, oldest first, for writing; what
    /// is written becomes the collection.
    pub fn iter_mut(&mut self) -> (r: &mut [(Entity, A)])
        ensures
            r@ == old(self)@,
            final(self)@ == final(r)@,
    {
        self.data.as_mut_slice()
    }

    /// Whether `e` is one of the entities of the collection.
    pub open spec fn holds_entity(&self, e: Entity) -> bool {
        exists|i: int| 0 <= i < self@.len() && (#[trigger] self@[i]).0 == e
    }

    /// Adds the fresh entity `e` (one the collection does not hold yet) with
    /// the components `a`, last.
    pub fn push(&mut self, e: Entity, a: A)
        requires
            !old(self).holds_entity(e),
        ensures
            final(self)@ == old(self)@.push((e, a)),
            final(self).holds_entity(e),
            forall|i: int| 0 <= i < old(self)@.len() ==> (#[trigger] final(self)@[i]).0 != e,
    {
        self.data.push((e, a));
        proof {
            assert(self@[self@.len() - 1].0 == e);
            assert forall|i: int| 0 <= i < old(self)@.len() implies (#[trigger] self@[i]).0 != e by {
                assert(old(self)@[i] == self@[i]);
            }
        }
    }
}

} // verus!
