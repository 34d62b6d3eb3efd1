use vstd::prelude::*;
use std::collections::BTreeMap;
use vstd::laws_cmp::obeys_cmp;
use vstd::std_specs::cmp::OrdSpec;

use crate::engine::scenes::entities::Entity;
use crate::keyed::{btree_get_mut, entries, lists_entries, update_values};

verus! {

broadcast use {vstd::std_specs::btree::group_btree_axioms, vstd::laws_cmp::group_laws_cmp};

/// The components of one type, at most one per entity.
#[derive(Debug)]
pub struct Components<C> {
    map: BTreeMap<usize, C>,
}

impl<C> View for Components<C> {
    type V = Map<usize, C>;

    /// The component of each entity that has one, by entity number.
    closed spec fn view(&self) -> Map<usize, C> {
        self.map@
    }
}

impl<C> Default for Components<C> {
    fn default() -> (r: Self)
        ensures
            r@ == Map::<usize, C>::empty(),
    {
        Self::new()
    }
}

impl<C> Components<C> {
    /// No entity has a component.
    pub fn new() -> (r: Self)
        ensures
            r@ == Map::<usize, C>::empty(),
    {
        Components { map: BTreeMap::new() }
    }

    /// Attaches `c` to `e`, in place of the component it had.
    pub fn add(&mut self, e: Entity, c: C)
        ensures
            final(self)@ == old(self)@.insert(e.id_spec(), c),
    {
        self.map.insert(e.id(), c);
    }

    /// The component of `e`, if it has one.
    pub fn get(&self, e: &Entity) -> (r: Option<&C>)
        ensures
            self@.contains_key(e.id_spec()) ==> r == Some(&self@[e.id_spec()]),
            !self@.contains_key(e.id_spec()) ==> r is None,
    {
        self.map.get(&e.id())
    }

    /// The component of `e` for writing, if it has one; what is written
    /// through it becomes the component of `e`.
    pub fn get_mut(&mut self, e: &Entity) -> (r: Option<&mut C>)
        ensures
            match r {
                Some(c) => old(self)@.contains_key(e.id_spec()) && *c == old(self)@[e.id_spec()]
                    && final(self)@ == old(self)@.insert(e.id_spec(), *final(c)),
                None => !old(self)@.contains_key(e.id_spec()) && final(self)@ == old(self)@,
            },
    {
        let id = e.id();
        proof { assert(obeys_cmp::<usize>()); }
        btree_get_mut(&mut self.map, &id)
    }

    /// Gives each entity that has a component, by increasing number, the
    /// component that `f` makes of the entity and its present component.
    pub fn iter_mut<F: Fn(Entity, C) -> C>(&mut self, f: F)
        requires
            forall|id: usize| #[trigger] old(self)@.contains_key(id) ==> f.requires(
                (Entity::numbered(id), old(self)@[id]),
            ),
        ensures
            final(self)@.dom() == old(self)@.dom(),
            forall|id: usize| #[trigger] old(self)@.contains_key(id) ==> f.ensures(
                (Entity::numbered(id), old(self)@[id]),
                final(self)@[id],
            ),
    {
        let fr = &f;
        let g = |k: usize, v: C| -> (r: C)
            requires
                fr.requires((Entity::numbered(k), v)),
            ensures
                fr.ensures((Entity::numbered(k), v), r),
            { fr(Entity::from_id(k), v) };
        proof {
            assert(obeys_cmp::<usize>());
            assert forall|k: usize| !(#[trigger] k.cmp_spec(&k) is Less) by {}
            assert forall|k: usize| #[trigger] self.map@.contains_key(k) implies g.requires((k, self.map@[k])) by {
                assert(old(self)@.contains_key(k));
                assert(fr.requires((Entity::numbered(k), self.map@[k])));
            }
        }
        update_values(&mut self.map, &g);
    }

    /// The entities that have a component, each with it, by increasing number.
    pub fn iter(&self) -> (r: Vec<(Entity, &C)>)
        ensures
            r@.len() == self@.dom().len(),
            forall|i: int, j: int|
                #![trigger r@[i], r@[j]]
                0 <= i < j < r@.len() ==> r@[i].0.id_spec() < r@[j].0.id_spec(),
            forall|i: int|
                0 <= i < r@.len() ==> self@.contains_key((#[trigger] r@[i]).0.id_spec())
                    && self@[r@[i].0.id_spec()] == *r@[i].1,
            forall|id: usize|
                self@.contains_key(id) ==> exists|i: int|
                    0 <= i < r@.len() && (#[trigger] r@[i]).0.id_spec() == id,
    {
        let es = entries(&self.map);
        let mut out: Vec<(Entity, &C)> = Vec::new();
        for i in 0..es.len()
            invariant
                es@.len() == self.map@.dom().len(),
                lists_entries(es@, self.map@),
                out@.len() == i,
                forall|j: int| 0 <= j < i ==> (#[trigger] out@[j]).0.id_spec() == es@[j].0 && out@[j].1 == es@[j].1,
        {
            let (k, v) = es[i];
            out.push((Entity::from_id(k), v));
        }
        proof {
            assert forall|i: int, j: int|
                #![trigger out@[i], out@[j]]
                0 <= i < j < out@.len() implies out@[i].0.id_spec() < out@[j].0.id_spec() by {
                assert(es@[i].0.cmp_spec(&es@[j].0) is Less);
            }
            assert forall|id: usize| self@.contains_key(id) implies exists|i: int|
                0 <= i < out@.len() && (#[trigger] out@[i]).0.id_spec() == id by {
                let i = choose|i: int| 0 <= i < es@.len() && #[trigger] es@[i].0 == id;
                assert(out@[i].0.id_spec() == id);
            }
        }
        out
    }
}

#[derive(Debug)]
enum State {
    Write,
    Read(i64),
    Taken,
}

impl State {
    /// Readers are counted from one up while any read access is out.
    #[verifier::type_invariant]
    spec fn counted(self) -> bool {
        match self {
            State::Read(c) => c >= 1,
            _ => true,
        }
    }
}

/// The components of one type with the access handed out for them: free,
/// read by some readers, or taken for writing.
#[derive(Debug)]
pub struct ComponentsState<T> {
    comps: Components<T>,
    state: State,
}

/// The components were not available for the access asked for.
#[derive(Debug)]
pub struct ComponentsNotAvailable;

/// A token handed back that does not fit the access state.
#[derive(Debug)]
pub struct NotSuitableComponentsRecieve;

/// A read access handed out by a `ComponentsState`.
pub struct ComponentsRef<T> {
    marker: core::marker::PhantomData<T>,
}

/// A write access handed out by a `ComponentsState`.
pub struct ComponentsMut<T> {
    marker: core::marker::PhantomData<T>,
}

impl<T> ComponentsRef<T> {
    fn new() -> Self {
        ComponentsRef { marker: core::marker::PhantomData }
    }
}

impl<T> ComponentsMut<T> {
    fn new() -> Self {
        ComponentsMut { marker: core::marker::PhantomData }
    }
}

impl<T> ComponentsState<T> {
    /// Readers are counted from one up while any read access is out.
    pub closed spec fn wf(&self) -> bool {
        match self.state {
            State::Read(c) => c >= 1,
            _ => true,
        }
    }

    /// The components held.
    pub closed spec fn components(&self) -> Map<usize, T> {
        self.comps@
    }

    /// How many read accesses are out, so that a caller can tell whether one more
    /// can be counted.
    pub fn reader_count(&self) -> (r: i64)
        ensures
            r == self.readers(),
            self.wf(),
    {
        proof { use_type_invariant(&self.state); }
        match &self.state {
            State::Read(c) => *c,
            _ => 0,
        }
    }

    /// How many read accesses are out (0 when none is).
    pub closed spec fn readers(&self) -> int {
        match self.state {
            State::Read(c) => c as int,
            _ => 0,
        }
    }

    /// Whether the write access is out.
    pub closed spec fn taken(&self) -> bool {
        self.state is Taken
    }

    /// The same components and access state.
    pub open spec fn same_state(&self, other: &Self) -> bool {
        &&& self.components() == other.components()
        &&& self.readers() == other.readers()
        &&& self.taken() == other.taken()
    }

    /// The components, with no access out.
    pub fn new(comps: Components<T>) -> (r: Self)
        ensures
            r.wf(),
            r.components() == comps@,
            r.readers() == 0,
            !r.taken(),
    {
        ComponentsState { comps, state: State::Write }
    }

    /// Hands out a read access, unless the write access is out.
    pub fn try_read(&mut self) -> (r: Result<ComponentsRef<T>, ComponentsNotAvailable>)
        requires
            old(self).readers() < i64::MAX,
        ensures
            final(self).wf(),
            final(self).components() == old(self).components(),
            old(self).taken() ==> r is Err && final(self).same_state(old(self)),
            !old(self).taken() ==> r is Ok && final(self).readers() == old(self).readers() + 1
                && !final(self).taken(),
    {
        proof { use_type_invariant(&self.state); }
        match self.state {
            State::Write => {
                self.state = State::Read(1);
                Ok(ComponentsRef::new())
            },
            State::Read(counter) => {
                self.state = State::Read(counter + 1);
                Ok(ComponentsRef::new())
            },
            State::Taken => Err(ComponentsNotAvailable),
        }
    }

    /// Hands out the write access, when no access at all is out.
    pub fn try_write(&mut self) -> (r: Result<ComponentsMut<T>, ComponentsNotAvailable>)
        ensures
            final(self).wf(),
            final(self).components() == old(self).components(),
            (old(self).taken() || old(self).readers() != 0) ==> r is Err && final(self).same_state(
                old(self),
            ),
            !(old(self).taken() || old(self).readers() != 0) ==> r is Ok && final(self).taken()
                && final(self).readers() == 0,
    {
        proof { use_type_invariant(&self.state); }
        match self.state {
            State::Write => {
                self.state = State::Taken;
                Ok(ComponentsMut::new())
            },
            _ => Err(ComponentsNotAvailable),
        }
    }

    /// Takes back a read access: the reader count drops by one.
    pub fn receive_ref(&mut self, comps: &ComponentsRef<T>) -> (r: Result<(), NotSuitableComponentsRecieve>)
        ensures
            final(self).wf(),
            final(self).components() == old(self).components(),
            old(self).readers() == 0 ==> r is Err && final(self).same_state(old(self)),
            old(self).readers() != 0 ==> r is Ok && final(self).readers() == old(self).readers() - 1
                && !final(self).taken(),
    {
        proof { use_type_invariant(&self.state); }
        match self.state {
            State::Read(count) => {
                if count > 1 {
                    self.state = State::Read(count - 1);
                    Ok(())
                } else if count == 1 {
                    self.state = State::Write;
                    Ok(())
                } else {
                    Err(NotSuitableComponentsRecieve)
                }
            },
            _ => Err(NotSuitableComponentsRecieve),
        }
    }

    /// Takes back the write access: the components are free again.
    pub fn recieve_mut(&mut self, comps: &ComponentsMut<T>) -> (r: Result<(), NotSuitableComponentsRecieve>)
        ensures
            final(self).wf(),
            final(self).components() == old(self).components(),
            !old(self).taken() ==> r is Err && final(self).same_state(old(self)),
            old(self).taken() ==> r is Ok && !final(self).taken() && final(self).readers() == 0,
    {
        proof { use_type_invariant(&self.state); }
        match self.state {
            State::Taken => {
                self.state = State::Write;
                Ok(())
            },
            _ => Err(NotSuitableComponentsRecieve),
        }
    }

    /// Whether the write access would be handed out now.
    pub fn available_for_write(&self) -> (r: bool)
        ensures
            r == (!self.taken() && self.readers() == 0),
            self.wf(),
    {
        proof { use_type_invariant(&self.state); }
        match self.state {
            State::Write => true,
            State::Read(count) => count == 0,
            State::Taken => false,
        }
    }

    /// Whether a read access would be handed out now.
    pub fn available_for_read(&self) -> (r: bool)
        ensures
            r == !self.taken(),
            self.wf(),
    {
        proof { use_type_invariant(&self.state); }
        match self.state {
            State::Taken => false,
            State::Read(_) | State::Write => true,
        }
    }

    /// The components, seen through a read access while the write access is not out.
    pub fn get(&self, comps: &ComponentsRef<T>) -> (r: Option<&Components<T>>)
        ensures
            !self.taken() ==> r is Some && r->Some_0@ == self.components(),
            self.taken() ==> r is None,
    {
        match self.state {
            State::Taken => None,
            _ => Some(&self.comps),
        }
    }

    /// The components, written through the write access while it is out;
    /// what is written through the result becomes the components held.
    pub fn get_mut(&mut self, comps: &ComponentsMut<T>) -> (r: Option<&mut Components<T>>)
        ensures
            old(self).taken() ==> r is Some && r->Some_0@ == old(self).components()
                && final(self).components() == final(r->Some_0)@ && final(self).taken()
                && final(self).wf(),
            !old(self).taken() ==> r is None && final(self).same_state(old(self)) && final(self).wf(),
    {
        proof { use_type_invariant(&self.state); }
        match self.state {
            State::Taken => Some(&mut self.comps),
            _ => None,
        }
    }
}

/// Law: a read access handed back right after it was handed out leaves the
/// components with the access state they had (`s1` is `s0` after
/// `try_read`, `s2` is `s1` after `receive_ref`).
pub proof fn lemma_read_round_trip<T>(s0: ComponentsState<T>, s1: ComponentsState<T>, s2: ComponentsState<T>)
    requires
        s0.wf(),
        !s0.taken(),
        s1.readers() == s0.readers() + 1,
        !s1.taken(),
        s1.components() == s0.components(),
        s2.readers() == s1.readers() - 1,
        !s2.taken(),
        s2.components() == s1.components(),
    ensures
        s2.same_state(&s0),
{
}

} // verus!
