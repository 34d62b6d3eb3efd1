use vstd::prelude::*;
use std::collections::BTreeMap;
use vstd::laws_cmp::obeys_cmp;
use vstd::std_specs::cmp::OrdSpec;

use crate::engine::entity::Entity;
use crate::keyed::{btree_get_mut, entries, lists_entries, update_values};

verus! {

broadcast use {vstd::std_specs::btree::group_btree_axioms, vstd::laws_cmp::group_laws_cmp};

/// A value that can be attached to entities.
pub trait Component: Send + Sync + 'static {}

impl<T: Send + Sync + 'static> Component for T {}

/// The components of one type, at most one per entity.
#[derive(Debug)]
pub struct Components<C: Component> {
    data: BTreeMap<usize, C>,
}

/// The components of a `Components`, by increasing entity number.
pub struct Iter<'a, C: Component> {
    data: Vec<(Entity, &'a C)>,
    pos: usize,
}

impl<'a, C: Component> Iter<'a, C> {
    fn new(data: Vec<(Entity, &'a C)>) -> (r: Self)
        ensures
            r.rest() == data@,
    {
        Iter { data, pos: 0 }
    }

    #[verifier::type_invariant]
    spec fn inv(&self) -> bool {
        self.pos <= self.data.len()
    }

    /// What this iterator has still to hand out, in order.
    pub closed spec fn rest(&self) -> Seq<(Entity, &'a C)> {
        self.data@.skip(self.pos as int)
    }

    /// The next entity and its component, or `None` when all were handed out.
    pub fn next(&mut self) -> (r: Option<(Entity, &'a C)>)
        ensures
            old(self).rest().len() == 0 ==> r is None && final(self).rest() == old(self).rest(),
            old(self).rest().len() > 0 ==> r == Some(old(self).rest()[0]) && final(self).rest()
                == old(self).rest().drop_first(),
    {
        proof { use_type_invariant(&*self); }
        if self.pos < self.data.len() {
            let item = self.data[self.pos];
            self.pos = self.pos + 1;
            proof {
                assert(self.rest() =~= old(self).rest().drop_first());
            }
            Some(item)
        } else {
            None
        }
    }
}

impl<C: Component> View for Components<C> {
    type V = Map<usize, C>;

    /// The component of each entity that has one, by entity number.
    closed spec fn view(&self) -> Map<usize, C> {
        self.data@
    }
}

impl<C: Component> Default for Components<C> {
    fn default() -> (r: Self)
        ensures
            r@ == Map::<usize, C>::empty(),
    {
        Self::new()
    }
}

impl<C: Component> Components<C> {
    /// No entity has a component.
    pub fn new() -> (r: Self)
        ensures
            r@ == Map::<usize, C>::empty(),
    {
        Components { data: BTreeMap::new() }
    }

    /// Gives each entity that has a component, by increasing number, the
    /// component that `f` makes of the entity and its present component.
    pub fn iter_mut<F: Fn(Entity, C) -> C>(&mut self, f: F)
        requires
            forall|id: usize| #[trigger] old(self)@.contains_key(id) ==> f.requires(
                (Entity::numbered(id), old(self)@[id]),
            ),
        ensures
            final(self)@.dom() == old(self)@.dom(),
            forall|id: usize| #[trigger] old(self)@.contains_key(id) ==> f.ensures(
                (Entity::numbered(id), old(self)@[id]),
                final(self)@[id],
            ),
    {
        let fr = &f;
        let g = |k: usize, v: C| -> (r: C)
            requires
                fr.requires((Entity::numbered(k), v)),
            ensures
                fr.ensures((Entity::numbered(k), v), r),
            { fr(Entity::from_id(k), v) };
        proof {
            assert(obeys_cmp::<usize>());
            assert forall|k: usize| !(#[trigger] k.cmp_spec(&k) is Less) by {}
            assert forall|k: usize| #[trigger] self.data@.contains_key(k) implies g.requires((k, self.data@[k])) by {
                assert(old(self)@.contains_key(k));
                assert(fr.requires((Entity::numbered(k), self.data@[k])));
            }
        }
        update_values(&mut self.data, &g);
    }

    /// The components, by increasing entity number.
    pub fn iter(&self) -> (r: Iter<'_, C>)
        ensures
            r.rest().len() == self@.dom().len(),
            forall|i: int, j: int|
                #![trigger r.rest()[i], r.rest()[j]]
                0 <= i < j < r.rest().len() ==> r.rest()[i].0.id_spec() < r.rest()[j].0.id_spec(),
            forall|i: int|
                0 <= i < r.rest().len() ==> self@.contains_key((#[trigger] r.rest()[i]).0.id_spec())
                    && self@[r.rest()[i].0.id_spec()] == *r.rest()[i].1,
            forall|id: usize|
                self@.contains_key(id) ==> exists|i: int|
                    0 <= i < r.rest().len() && (#[trigger] r.rest()[i]).0.id_spec() == id,
    {
        let es = entries(&self.data);
        let mut out: Vec<(Entity, &C)> = Vec::new();
        for i in 0..es.len()
            invariant
                es@.len() == self.data@.dom().len(),
                lists_entries(es@, self.data@),
                out@.len() == i,
                forall|j: int| 0 <= j < i ==> (#[trigger] out@[j]).0.id_spec() == es@[j].0 && out@[j].1 == es@[j].1,
        {
            let (k, v) = es[i];
            out.push((Entity::from_id(k), v));
        }
        let r = Iter::new(out);
        proof {
            assert(r.rest() == out@);
            assert forall|i: int, j: int|
                #![trigger r.rest()[i], r.rest()[j]]
                0 <= i < j < r.rest().len() implies r.rest()[i].0.id_spec() < r.rest()[j].0.id_spec() by {
                assert(es@[i].0.cmp_spec(&es@[j].0) is Less);
            }
            assert forall|id: usize| self@.contains_key(id) implies exists|i: int|
                0 <= i < r.rest().len() && (#[trigger] r.rest()[i]).0.id_spec() == id by {
                let i = choose|i: int| 0 <= i < es@.len() && #[trigger] es@[i].0 == id;
                assert(r.rest()[i].0.id_spec() == id);
            }
        }
        r
    }

    /// Attaches `c` to `e`, in place of the component it had.
    pub fn insert(&mut self, e: Entity, c: C)
        ensures
            final(self)@ == old(self)@.insert(e.id_spec(), c),
    {
        self.data.insert(e.id(), c);
    }

    /// The component of `e`, if it has one.
    pub fn get(&self, e: &Entity) -> (r: Option<&C>)
        ensures
            self@.contains_key(e.id_spec()) ==> r == Some(&self@[e.id_spec()]),
            !self@.contains_key(e.id_spec()) ==> r is None,
    {
        self.data.get(&e.id())
    }

    /// The component of `e` for writing, if it has one; what is written
    /// through it becomes the component of `e`.
    pub fn get_mut(&mut self, e: &Entity) -> (r: Option<&mut C>)
        ensures
            match r {
                Some(c) => old(self)@.contains_key(e.id_spec()) && *c == old(self)@[e.id_spec()]
                    && final(self)@ == old(self)@.insert(e.id_spec(), *final(c)),
                None => !old(self)@.contains_key(e.id_spec()) && final(self)@ == old(self)@,
            },
    {
        let id = e.id();
        proof { assert(obeys_cmp::<usize>()); }
        btree_get_mut(&mut self.data, &id)
    }
}

} // verus!
