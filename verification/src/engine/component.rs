use vstd::prelude::*;

use crate::engine::entity::Entity;

verus! {

/// A value that can be attached to entities of a `ComponentCollection`.
pub trait Component: Send + Sync + 'static {}

/// The components of one type, stored in a slot per entity number.
pub struct ComponentCollection<T: Component> {
    components: Vec<Option<Box<T>>>,
}

/// The component held in a slot, unboxed.
pub open spec fn unbox<T>(slot: Option<Box<T>>) -> Option<T> {
    match slot {
        Some(b) => Some(*b),
        None => None,
    }
}

impl<T: Component> Default for ComponentCollection<T> {
    fn default() -> (r: Self)
        ensures
            r.slots() == Seq::<Option<T>>::empty(),
    {
        ComponentCollection { components: Vec::new() }
    }
}

impl<T: Component> ComponentCollection<T> {
    /// Slot `i` holds the component of the entity numbered `i`, if it has one.
    pub closed spec fn slots(&self) -> Seq<Option<T>> {
        self.components@.map_values(|s: Option<Box<T>>| unbox(s))
    }

    /// The component of the entity numbered `id`, if it has one.
    pub open spec fn component(&self, id: int) -> Option<T> {
        if 0 <= id < self.slots().len() {
            self.slots()[id]
        } else {
            None
        }
    }

    /// Attaches `comp` to `entity`, growing the slots up to its number when
    /// needed, and gives back the component it had.
    pub fn insert(&mut self, entity: &Entity, comp: T) -> (r: Option<T>)
        requires
            entity.id_spec() < usize::MAX,
        ensures
            r == old(self).component(entity.id_spec() as int),
            final(self).slots().len() == if entity.id_spec() < old(self).slots().len() {
                old(self).slots().len() as int
            } else {
                entity.id_spec() + 1
            },
            final(self).slots()[entity.id_spec() as int] == Some(comp),
            forall|i: int|
                #![trigger final(self).component(i)]
                0 <= i < final(self).slots().len() && i != entity.id_spec() ==> final(self).component(i)
                    == old(self).component(i),
    {
        let new_index = entity.id();
        let ghost old_slots = self.slots();
        if new_index >= self.components.len() {
            while self.components.len() < new_index + 1
                invariant
                    new_index < usize::MAX,
                    old_slots.len() <= self.components.len() <= new_index + 1,
                    forall|i: int| 0 <= i < old_slots.len() ==> unbox(#[trigger] self.components@[i]) == old_slots[i],
                    forall|i: int| old_slots.len() <= i < self.components.len() ==> #[trigger] self.components@[i] is None,
                decreases new_index + 1 - self.components.len(),
            {
                self.components.push(None);
            }
        }
        let mut old = Some(Box::new(comp));
        std::mem::swap(&mut self.components[new_index], &mut old);
        match old {
            Some(b) => Some(*b),
            None => None,
        }
    }

    /// Gives each entity that has a component, by increasing number, the
    /// component that `f` makes of the entity and its present component.
    pub fn iter_mut<F: Fn(Entity, T) -> T>(&mut self, f: F)
        requires
            forall|i: int|
                0 <= i < old(self).slots().len() && (#[trigger] old(self).slots()[i]) is Some ==> f.requires(
                    (Entity::numbered(i as usize), old(self).slots()[i]->Some_0),
                ),
        ensures
            final(self).slots().len() == old(self).slots().len(),
            forall|i: int|
                0 <= i < old(self).slots().len() ==> match #[trigger] old(self).slots()[i] {
                    None => final(self).slots()[i] is None,
                    Some(c) => final(self).slots()[i] is Some && f.ensures(
                        (Entity::numbered(i as usize), c),
                        final(self).slots()[i]->Some_0,
                    ),
                },
    {
        let ghost start = self.slots();
        let n = self.components.len();
        for i in 0..n
            invariant
                n == self.components.len(),
                start.len() == n,
                self.slots().len() == n,
                forall|j: int|
                    0 <= j < n && (#[trigger] start[j]) is Some ==> f.requires(
                        (Entity::numbered(j as usize), start[j]->Some_0),
                    ),
                forall|j: int|
                    0 <= j < i ==> match #[trigger] start[j] {
                        None => self.slots()[j] is None,
                        Some(c) => self.slots()[j] is Some && f.ensures(
                            (Entity::numbered(j as usize), c),
                            self.slots()[j]->Some_0,
                        ),
                    },
                forall|j: int| i <= j < n ==> #[trigger] self.slots()[j] == start[j],
        {
            let ghost before = self.slots();
            let mut slot: Option<Box<T>> = None;
            std::mem::swap(&mut self.components[i], &mut slot);
            match slot {
                Some(b) => {
                    proof {
                        assert(before[i as int] == unbox(Some(b)));
                        assert(start[i as int] is Some);
                    }
                    let e = Entity::from_id(i);
                    let nv = f(e, *b);
                    let mut back = Some(Box::new(nv));
                    std::mem::swap(&mut self.components[i], &mut back);
                },
                None => {
                    std::mem::swap(&mut self.components[i], &mut slot);
                },
            }
            proof {
                assert forall|j: int| 0 <= j < n && j != i implies #[trigger] self.slots()[j] == before[j] by {}
            }
        }
    }

    /// The component of `entity`, if it has one.
    pub fn get(&self, entity: &Entity) -> (r: Option<&T>)
        ensures
            r == match self.component(entity.id_spec() as int) {
                Some(c) => Some(&c),
                None => None::<&T>,
            },
    {
        let id = entity.id();
        if id < self.components.len() {
            match &self.components[id] {
                Some(b) => Some(&**b),
                None => None,
            }
        } else {
            None
        }
    }

    /// The component of `entity` for writing, if it has one; what is written
    /// through it becomes the component of `entity`.
    pub fn get_mut(&mut self, entity: &Entity) -> (r: Option<&mut T>)
        ensures
            match r {
                Some(c) => old(self).component(entity.id_spec() as int) == Some(*c)
                    && final(self).slots() == old(self).slots().update(
                    entity.id_spec() as int,
                    Some(*final(c)),
                ),
                None => old(self).component(entity.id_spec() as int) is None && final(self).slots()
                    == old(self).slots(),
            },
    {
        let id = entity.id();
        if id < self.components.len() {
            match &mut self.components[id] {
                Some(b) => Some(&mut **b),
                None => None,
            }
        } else {
            None
        }
    }

    /// The entities that have a component, each with it, by increasing number.
    pub fn iter(&self) -> (r: Vec<(Entity, &T)>)
        ensures
            ids_increasing(r@),
            forall|i: int| 0 <= i < r@.len() ==> self.component((#[trigger] r@[i]).0.id_spec() as int) == Some(*r@[i].1),
            forall|id: int| self.component(id) is Some ==> exists|i: int|
                0 <= i < r@.len() && (#[trigger] r@[i]).0.id_spec() == id,
    {
        let mut out: Vec<(Entity, &T)> = Vec::new();
        for id in 0..self.components.len()
            invariant
                ids_increasing(out@),
                forall|i: int| 0 <= i < out@.len() ==> (#[trigger] out@[i]).0.id_spec() < id,
                forall|i: int| 0 <= i < out@.len() ==> self.component((#[trigger] out@[i]).0.id_spec() as int) == Some(*out@[i].1),
                forall|k: int| 0 <= k < id && self.component(k) is Some ==> exists|i: int|
                    0 <= i < out@.len() && (#[trigger] out@[i]).0.id_spec() == k,
        {
            match &self.components[id] {
                Some(b) => {
                    let ghost before = out@;
                    out.push((Entity::from_id(id), &**b));
                    proof {
                        assert forall|k: int| 0 <= k < id + 1 && self.component(k) is Some implies exists|i: int|
                            0 <= i < out@.len() && (#[trigger] out@[i]).0.id_spec() == k by {
                            if k < id {
                                let i = choose|i: int| 0 <= i < before.len() && (#[trigger] before[i]).0.id_spec() == k;
                                assert(out@[i] == before[i]);
                            } else {
                                assert(out@[out@.len() - 1].0.id_spec() == k);
                            }
                        }
                    }
                },
                None => {},
            }
        }
        out
    }
}

/// The entity numbers of `s` strictly increase.
pub open spec fn ids_increasing<X>(s: Seq<(Entity, X)>) -> bool {
    forall|i: int, j: int| #![trigger s[i], s[j]] 0 <= i < j < s.len() ==> s[i].0.id_spec() < s[j].0.id_spec()
}


/// Walks several component collections together: yields, by increasing
/// entity number, every entity that has a component in each of them, with
/// those components.
pub trait Join<'a>: Sized {
    type Item;

    /// The numbers of the entities that have a component in each collection.
    spec fn joined_ids(&self) -> Set<int>;

    /// Whether `item` is what the collections hold for the entity numbered `id`.
    spec fn holds(&self, id: int, item: Self::Item) -> bool;

    fn join(self) -> (r: Vec<(Entity, Self::Item)>)
        ensures
            ids_increasing(r@),
            forall|i: int|
                0 <= i < r@.len() ==> self.joined_ids().contains((#[trigger] r@[i]).0.id_spec() as int)
                    && self.holds(r@[i].0.id_spec() as int, r@[i].1),
            forall|id: int|
                self.joined_ids().contains(id) ==> exists|i: int|
                    0 <= i < r@.len() && (#[trigger] r@[i]).0.id_spec() == id,
    ;
}

impl<'a, T: Component> Join<'a> for &'a ComponentCollection<T> {
    type Item = &'a T;

    open spec fn joined_ids(&self) -> Set<int> {
        Set::new(|id: int| self.component(id) is Some)
    }

    open spec fn holds(&self, id: int, item: &'a T) -> bool {
        self.component(id) == Some(*item)
    }

    fn join(self) -> (r: Vec<(Entity, &'a T)>) {
        self.iter()
    }
}

/// The entities of `s` with their position, for looking an entity up.
pub open spec fn has_id<X>(s: Seq<(Entity, X)>, id: int) -> bool {
    exists|i: int| 0 <= i < s.len() && (#[trigger] s[i]).0.id_spec() == id
}

/// Some element of `s` at position `start` or later has the number `id`.
pub open spec fn has_id_from<X>(s: Seq<(Entity, X)>, start: int, id: int) -> bool {
    exists|i: int| start <= i < s.len() && (#[trigger] s[i]).0.id_spec() == id
}

/// `x` is the entity of `a[i]` and of `b[j]` for some positions `i` and `j`
/// from `lo_a` and `lo_b` on, with their two items.
pub open spec fn paired_from<X, Y>(a: Seq<(Entity, X)>, b: Seq<(Entity, Y)>, lo_a: int, lo_b: int, x: (Entity, (X, Y))) -> bool {
    exists|i: int, j: int| #![trigger a[i], b[j]]
        lo_a <= i < a.len() && lo_b <= j < b.len() && a[i].0 == x.0 && b[j].0 == x.0 && a[i].1 == x.1.0 && b[j].1 == x.1.1
}

/// Merges two lists that are each ordered by entity number into the list of
/// the entities present in both, each with its two items, in the same order.
pub fn merge_joined<X, Y>(a: Vec<(Entity, X)>, b: Vec<(Entity, Y)>) -> (r: Vec<(Entity, (X, Y))>)
    requires
        ids_increasing(a@),
        ids_increasing(b@),
    ensures
        ids_increasing(r@),
        forall|k: int| 0 <= k < r@.len() ==> paired_from(a@, b@, 0, 0, #[trigger] r@[k]),
        forall|id: int| has_id(a@, id) && has_id(b@, id) ==> has_id(r@, id),
{
    let ghost a0 = a@;
    let ghost b0 = b@;
    let mut a = a;
    let mut b = b;
    // Matches are collected from the largest number down, then reversed.
    let mut down: Vec<(Entity, (X, Y))> = Vec::new();
    while a.len() > 0 && b.len() > 0
        invariant
            ids_increasing(a0),
            ids_increasing(b0),
            a@ == a0.take(a@.len() as int),
            b@ == b0.take(b@.len() as int),
            a@.len() <= a0.len(),
            b@.len() <= b0.len(),
            forall|i: int, j: int| #![trigger down@[i], down@[j]] 0 <= i < j < down@.len() ==> down@[j].0.id_spec() < down@[i].0.id_spec(),
            forall|i: int, j: int| #![trigger a0[i], b0[j]] 0 <= i < a@.len() && b@.len() <= j < b0.len() ==> a0[i].0.id_spec() < b0[j].0.id_spec(),
            forall|i: int, j: int| #![trigger a0[i], b0[j]] a@.len() <= i < a0.len() && 0 <= j < b@.len() ==> b0[j].0.id_spec() < a0[i].0.id_spec(),
            forall|k: int| 0 <= k < down@.len() ==> paired_from(a0, b0, a@.len() as int, b@.len() as int, #[trigger] down@[k]),
            forall|id: int| has_id(a0, id) && has_id(b0, id) && (has_id_from(a0, a@.len() as int, id)
                || has_id_from(b0, b@.len() as int, id)) ==> has_id(down@, id),
        decreases a@.len() + b@.len(),
    {
        let la = a.len();
        let lb = b.len();
        let ida = a[la - 1].0.id();
        let idb = b[lb - 1].0.id();
        let ghost down_before = down@;
        proof {
            assert(a0[la - 1] == a@[la - 1]);
            assert(b0[lb - 1] == b@[lb - 1]);
        }
        if ida == idb {
            let (ea, xa) = a.pop().unwrap();
            let (_eb, yb) = b.pop().unwrap();
            down.push((ea, (xa, yb)));
            proof {
                assert(a@ =~= a0.take(a@.len() as int));
                assert(b@ =~= b0.take(b@.len() as int));
                assert forall|i: int, j: int| #![trigger down@[i], down@[j]] 0 <= i < j < down@.len()
                    implies down@[j].0.id_spec() < down@[i].0.id_spec() by {
                    if j == down@.len() - 1 {
                        assert(paired_from(a0, b0, la as int, lb as int, down_before[i]));
                        let (ii, jj) = choose|ii: int, jj: int| #![trigger a0[ii], b0[jj]]
                            la <= ii < a0.len() && lb <= jj < b0.len() && a0[ii].0 == down_before[i].0
                                && b0[jj].0 == down_before[i].0 && a0[ii].1 == down_before[i].1.0 && b0[jj].1 == down_before[i].1.1;
                        assert(a0[la - 1].0.id_spec() < a0[ii].0.id_spec());
                    }
                }
                assert forall|k: int| 0 <= k < down@.len() implies paired_from(a0, b0, a@.len() as int, b@.len() as int, #[trigger] down@[k]) by {
                    if k == down@.len() - 1 {
                        assert(a0[la - 1].0 == down@[k].0);
                        assert(b0[lb - 1].0.id_spec() == down@[k].0.id_spec());
                        Entity::lemma_eq_by_id(b0[lb - 1].0, down@[k].0);
                    } else {
                        assert(down@[k] == down_before[k]);
                    }
                }
                assert forall|id: int| has_id(a0, id) && has_id(b0, id) && (has_id_from(a0, a@.len() as int, id)
                    || has_id_from(b0, b@.len() as int, id)) implies has_id(down@, id) by {
                    if has_id_from(a0, la as int, id) || has_id_from(b0, lb as int, id) {
                        let k = choose|k: int| 0 <= k < down_before.len() && (#[trigger] down_before[k]).0.id_spec() == id;
                        assert(down@[k] == down_before[k]);
                    } else {
                        assert(down@[down@.len() - 1].0.id_spec() == id);
                    }
                }
                assert forall|i: int, j: int| #![trigger a0[i], b0[j]] 0 <= i < a@.len() && b@.len() <= j < b0.len()
                    implies a0[i].0.id_spec() < b0[j].0.id_spec() by {
                    if j == b@.len() {
                        assert(a0[i].0.id_spec() < a0[la - 1].0.id_spec());
                    }
                }
                assert forall|i: int, j: int| #![trigger a0[i], b0[j]] a@.len() <= i < a0.len() && 0 <= j < b@.len()
                    implies b0[j].0.id_spec() < a0[i].0.id_spec() by {
                    if i == a@.len() {
                        assert(b0[j].0.id_spec() < b0[lb - 1].0.id_spec());
                    }
                }
            }
        } else if ida > idb {
            a.pop();
            proof {
                assert(a@ =~= a0.take(a@.len() as int));
                assert forall|k: int| 0 <= k < down@.len() implies paired_from(a0, b0, a@.len() as int, b@.len() as int, #[trigger] down@[k]) by {
                    assert(paired_from(a0, b0, la as int, lb as int, down_before[k]));
                    let (ii, jj) = choose|ii: int, jj: int| #![trigger a0[ii], b0[jj]]
                        la <= ii < a0.len() && lb <= jj < b0.len() && a0[ii].0 == down_before[k].0
                            && b0[jj].0 == down_before[k].0 && a0[ii].1 == down_before[k].1.0 && b0[jj].1 == down_before[k].1.1;
                    assert(a@.len() <= ii && b@.len() <= jj);
                    assert(down@[k] == down_before[k]);
                    assert(a0[ii].0 == down@[k].0 && b0[jj].0 == down@[k].0 && a0[ii].1 == down@[k].1.0
                        && b0[jj].1 == down@[k].1.1);
                }
                assert forall|id: int| has_id(a0, id) && has_id(b0, id) && (has_id_from(a0, a@.len() as int, id)
                    || has_id_from(b0, b@.len() as int, id)) implies has_id(down@, id) by {
                    if !has_id_from(a0, la as int, id) && !has_id_from(b0, lb as int, id) {
                        assert(id == ida);
                        let j = choose|j: int| 0 <= j < b0.len() && (#[trigger] b0[j]).0.id_spec() == id;
                        if j < lb {
                            assert(b0[j].0.id_spec() <= b0[lb - 1].0.id_spec());
                        } else {
                            assert(a0[la - 1].0.id_spec() < b0[j].0.id_spec());
                        }
                    }
                }
                assert forall|i: int, j: int| #![trigger a0[i], b0[j]] a@.len() <= i < a0.len() && 0 <= j < b@.len()
                    implies b0[j].0.id_spec() < a0[i].0.id_spec() by {
                    if i == a@.len() {
                        assert(b0[j].0.id_spec() <= b0[lb - 1].0.id_spec());
                    }
                }
            }
        } else {
            b.pop();
            proof {
                assert(b@ =~= b0.take(b@.len() as int));
                assert forall|k: int| 0 <= k < down@.len() implies paired_from(a0, b0, a@.len() as int, b@.len() as int, #[trigger] down@[k]) by {
                    assert(paired_from(a0, b0, la as int, lb as int, down_before[k]));
                    let (ii, jj) = choose|ii: int, jj: int| #![trigger a0[ii], b0[jj]]
                        la <= ii < a0.len() && lb <= jj < b0.len() && a0[ii].0 == down_before[k].0
                            && b0[jj].0 == down_before[k].0 && a0[ii].1 == down_before[k].1.0 && b0[jj].1 == down_before[k].1.1;
                    assert(a@.len() <= ii && b@.len() <= jj);
                    assert(down@[k] == down_before[k]);
                    assert(a0[ii].0 == down@[k].0 && b0[jj].0 == down@[k].0 && a0[ii].1 == down@[k].1.0
                        && b0[jj].1 == down@[k].1.1);
                }
                assert forall|id: int| has_id(a0, id) && has_id(b0, id) && (has_id_from(a0, a@.len() as int, id)
                    || has_id_from(b0, b@.len() as int, id)) implies has_id(down@, id) by {
                    if !has_id_from(a0, la as int, id) && !has_id_from(b0, lb as int, id) {
                        assert(id == idb);
                        let i = choose|i: int| 0 <= i < a0.len() && (#[trigger] a0[i]).0.id_spec() == id;
                        if i < la {
                            assert(a0[i].0.id_spec() <= a0[la - 1].0.id_spec());
                        } else {
                            assert(b0[lb - 1].0.id_spec() < a0[i].0.id_spec());
                        }
                    }
                }
                assert forall|i: int, j: int| #![trigger a0[i], b0[j]] 0 <= i < a@.len() && b@.len() <= j < b0.len()
                    implies a0[i].0.id_spec() < b0[j].0.id_spec() by {
                    if j == b@.len() {
                        assert(a0[i].0.id_spec() <= a0[la - 1].0.id_spec());
                    }
                }
            }
        }
    }
    proof {
        assert forall|id: int| has_id(a0, id) && has_id(b0, id) implies has_id(down@, id) by {
            if a@.len() == 0 {
                assert(has_id_from(a0, a@.len() as int, id));
            } else {
                assert(has_id_from(b0, b@.len() as int, id));
            }
        }
    }
    let ghost d = down@;
    let mut r: Vec<(Entity, (X, Y))> = Vec::new();
    while down.len() > 0
        invariant
            down@ == d.take(down@.len() as int),
            down@.len() <= d.len(),
            r@.len() + down@.len() == d.len(),
            forall|k: int| 0 <= k < r@.len() ==> #[trigger] r@[k] == d[d.len() - 1 - k],
        decreases down@.len(),
    {
        let item = down.pop().unwrap();
        r.push(item);
        proof {
            assert(down@ =~= d.take(down@.len() as int));
        }
    }
    proof {
        assert forall|k: int| 0 <= k < r@.len() implies paired_from(a0, b0, 0, 0, #[trigger] r@[k]) by {
            let dk = d.len() - 1 - k;
            assert(r@[k] == d[dk]);
            assert(paired_from(a0, b0, a@.len() as int, b@.len() as int, d[dk]));
            let (ii, jj) = choose|ii: int, jj: int| #![trigger a0[ii], b0[jj]]
                a@.len() <= ii < a0.len() && b@.len() <= jj < b0.len() && a0[ii].0 == d[dk].0
                    && b0[jj].0 == d[dk].0 && a0[ii].1 == d[dk].1.0 && b0[jj].1 == d[dk].1.1;
        }
        assert forall|id: int| has_id(a0, id) && has_id(b0, id) implies has_id(r@, id) by {
            let k = choose|k: int| 0 <= k < d.len() && (#[trigger] d[k]).0.id_spec() == id;
            assert(r@[d.len() - 1 - k] == d[k]);
        }
    }
    r
}

impl<'a, A: Join<'a>, B: Join<'a>> Join<'a> for (A, B) {
    type Item = (A::Item, B::Item);

    open spec fn joined_ids(&self) -> Set<int> {
        self.0.joined_ids().intersect(self.1.joined_ids())
    }

    open spec fn holds(&self, id: int, item: (A::Item, B::Item)) -> bool {
        self.0.holds(id, item.0) && self.1.holds(id, item.1)
    }

    fn join(self) -> (r: Vec<(Entity, (A::Item, B::Item))>) {
        let ghost s = self;
        let (a, b) = self;
        let xs = a.join();
        let ys = b.join();
        let r = merge_joined(xs, ys);
        proof {
            assert forall|k: int| 0 <= k < r@.len() implies s.joined_ids().contains((#[trigger] r@[k]).0.id_spec() as int)
                && s.holds(r@[k].0.id_spec() as int, r@[k].1) by {
                assert(paired_from(xs@, ys@, 0, 0, r@[k]));
                let (i, j) = choose|i: int, j: int| #![trigger xs@[i], ys@[j]]
                    0 <= i < xs@.len() && 0 <= j < ys@.len() && xs@[i].0 == r@[k].0 && ys@[j].0 == r@[k].0
                        && xs@[i].1 == r@[k].1.0 && ys@[j].1 == r@[k].1.1;
                assert(s.0.joined_ids().contains(xs@[i].0.id_spec() as int));
                assert(s.1.joined_ids().contains(ys@[j].0.id_spec() as int));
            }
            assert forall|id: int| s.joined_ids().contains(id) implies exists|i: int|
                0 <= i < r@.len() && (#[trigger] r@[i]).0.id_spec() == id by {
                assert(s.0.joined_ids().contains(id));
                assert(s.1.joined_ids().contains(id));
                assert(has_id(xs@, id));
                assert(has_id(ys@, id));
                assert(has_id(r@, id));
                let i = choose|i: int| 0 <= i < r@.len() && (#[trigger] r@[i]).0.id_spec() == id;
                assert(0 <= i < r@.len() && r@[i].0.id_spec() == id);
            }
        }
        r
    }
}


} // verus!
