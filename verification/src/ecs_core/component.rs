use vstd::prelude::*;
use std::collections::BTreeMap;
use vstd::laws_cmp::obeys_cmp;
use vstd::std_specs::cmp::OrdSpec;

use crate::ecs_core::entity::Entity;
use crate::keyed::{entries, lists_entries, update_values};

verus! {

broadcast use {vstd::std_specs::btree::group_btree_axioms, vstd::laws_cmp::group_laws_cmp};

/// A value that can be attached to entities.
pub trait Component: Send + Sync + 'static {}

impl<T: Send + Sync + 'static> Component for T {}

/// The components of one type, at most one per entity.
pub struct ComponentMap<T: Component> {
    map: BTreeMap<u64, T>,
}

impl<T: Component> View for ComponentMap<T> {
    type V = Map<u64, T>;

    /// The component of each entity that has one, by entity number.
    closed spec fn view(&self) -> Map<u64, T> {
        self.map@
    }
}

impl<T: Component> Default for ComponentMap<T> {
    fn default() -> (r: Self)
        ensures
            r@ == Map::<u64, T>::empty(),
    {
        Self::new()
    }
}

impl<T: Component> ComponentMap<T> {
    /// No entity has a component.
    pub fn new() -> (r: Self)
        ensures
            r@ == Map::<u64, T>::empty(),
    {
        ComponentMap { map: BTreeMap::new() }
    }

    /// Attaches `t` to `e` and gives back the component it had.
    pub fn push(&mut self, e: Entity, t: T) -> (r: Option<T>)
        ensures
            final(self)@ == old(self)@.insert(e.id_spec(), t),
            old(self)@.contains_key(e.id_spec()) ==> r == Some(old(self)@[e.id_spec()]),
            !old(self)@.contains_key(e.id_spec()) ==> r is None,
    {
        proof { assert(obeys_cmp::<u64>()); }
        self.map.insert(e.id(), t)
    }

    /// Gives each entity that has a component, by increasing number, the
    /// component that `f` makes of the entity and its present component.
    pub fn iter_mut<F: Fn(Entity, T) -> T>(&mut self, f: F)
        requires
            forall|id: u64| #[trigger] old(self)@.contains_key(id) ==> f.requires(
                (Entity::numbered(id), old(self)@[id]),
            ),
        ensures
            final(self)@.dom() == old(self)@.dom(),
            forall|id: u64| #[trigger] old(self)@.contains_key(id) ==> f.ensures(
                (Entity::numbered(id), old(self)@[id]),
                final(self)@[id],
            ),
    {
        let fr = &f;
        let g = |k: u64, v: T| -> (r: T)
            requires
                fr.requires((Entity::numbered(k), v)),
            ensures
                fr.ensures((Entity::numbered(k), v), r),
            { fr(Entity::from_id(k), v) };
        proof {
            assert(obeys_cmp::<u64>());
            assert forall|k: u64| !(#[trigger] k.cmp_spec(&k) is Less) by {}
            assert forall|k: u64| #[trigger] self.map@.contains_key(k) implies g.requires((k, self.map@[k])) by {
                assert(old(self)@.contains_key(k));
                assert(fr.requires((Entity::numbered(k), self.map@[k])));
            }
        }
        update_values(&mut self.map, &g);
    }

    /// The entities that have a component, each with it, by increasing number.
    pub fn iter(&self) -> (r: Vec<(Entity, &T)>)
        ensures
            r@.len() == self@.dom().len(),
            forall|i: int, j: int|
                #![trigger r@[i], r@[j]]
                0 <= i < j < r@.len() ==> r@[i].0.id_spec() < r@[j].0.id_spec(),
            forall|i: int|
                0 <= i < r@.len() ==> self@.contains_key((#[trigger] r@[i]).0.id_spec())
                    && self@[r@[i].0.id_spec()] == *r@[i].1,
            forall|id: u64|
                self@.contains_key(id) ==> exists|i: int|
                    0 <= i < r@.len() && (#[trigger] r@[i]).0.id_spec() == id,
    {
        let es = entries(&self.map);
        let mut out: Vec<(Entity, &T)> = Vec::new();
        for i in 0..es.len()
            invariant
                es@.len() == self.map@.dom().len(),
                lists_entries(es@, self.map@),
                out@.len() == i,
                forall|j: int| 0 <= j < i ==> (#[trigger] out@[j]).0.id_spec() == es@[j].0 && out@[j].1 == es@[j].1,
        {
            let (k, v) = es[i];
            out.push((Entity::from_id(k), v));
        }
        proof {
            assert forall|i: int, j: int|
                #![trigger out@[i], out@[j]]
                0 <= i < j < out@.len() implies out@[i].0.id_spec() < out@[j].0.id_spec() by {
                assert(es@[i].0.cmp_spec(&es@[j].0) is Less);
            }
            assert forall|id: u64| self@.contains_key(id) implies exists|i: int|
                0 <= i < out@.len() && (#[trigger] out@[i]).0.id_spec() == id by {
                let i = choose|i: int| 0 <= i < es@.len() && #[trigger] es@[i].0 == id;
                assert(out@[i].0.id_spec() == id);
            }
        }
        out
    }
}

} // verus!
