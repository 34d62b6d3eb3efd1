use vstd::prelude::*;
use std::collections::BTreeMap;
use vstd::std_specs::iter::IteratorSpec;
use vstd::std_specs::btree::{increasing_seq, spec_btree_map_iter};
use vstd::std_specs::cmp::OrdSpec;
use vstd::laws_cmp::obeys_cmp;

verus! {

broadcast use {vstd::std_specs::btree::group_btree_axioms, vstd::laws_cmp::group_laws_cmp};

/// The keys of `s` strictly increase, in the order of `K`.
pub open spec fn keys_increasing<K: Ord, V>(s: Seq<(K, V)>) -> bool {
    forall|i: int, j: int| #![trigger s[i], s[j]] 0 <= i < j < s.len() ==> s[i].0.cmp_spec(&s[j].0) is Less
}

/// `s` lists exactly the entries of `m`, each once, by increasing key.
pub open spec fn lists_entries<K: Ord, V>(s: Seq<(K, &V)>, m: Map<K, V>) -> bool {
    &&& s.len() == m.dom().len()
    &&& keys_increasing(s)
    &&& forall|i: int| 0 <= i < s.len() ==> m.contains_key(#[trigger] s[i].0) && m[s[i].0] == *s[i].1
    &&& forall|k: K| m.contains_key(k) ==> exists|i: int| 0 <= i < s.len() && #[trigger] s[i].0 == k
}

/// The entries of `m` by increasing key.
pub fn entries<'a, K: Ord + Copy, V>(m: &'a BTreeMap<K, V>) -> (r: Vec<(K, &'a V)>)
    requires
        obeys_cmp::<K>(),
    ensures
        lists_entries(r@, m@),
{
    let mut r: Vec<(K, &'a V)> = Vec::new();
    let iter = m.iter();
    let ghost all = iter.remaining();
    proof {
        let keys = all.map_values(|kv: (&K, &V)| *kv.0);
        assert(increasing_seq(keys));
    }
    for kv in it: iter
        invariant
            r@.len() == it.index(),
            it.seq() == all,
            forall|i: int| 0 <= i < it.index() ==> r@[i].0 == *all[i].0 && r@[i].1 == all[i].1,
    {
        let (k, v) = kv;
        r.push((*k, v));
    }
    proof {
        let keys = all.map_values(|kv: (&K, &V)| *kv.0);
        assert forall|i: int, j: int| #![trigger r@[i], r@[j]] 0 <= i < j < r@.len() implies r@[i].0.cmp_spec(
            &r@[j].0,
        ) is Less by {
            assert(keys[i].cmp_spec(&keys[j]) is Less);
        }
        assert(all == spec_btree_map_iter(m).remaining());
        assert forall|i: int| 0 <= i < r@.len() implies m@.contains_key(#[trigger] r@[i].0)
            && m@[r@[i].0] == *r@[i].1 by {
            assert(m@.contains_key(*all[i].0));
        }
    }
    r
}

/// Replaces each value of `m` by what `f` makes of its key and that value;
/// the keys stay as they are.
pub fn update_values<K: Ord + Copy, V, F: Fn(K, V) -> V>(m: &mut BTreeMap<K, V>, f: &F)
    requires
        obeys_cmp::<K>(),
        forall|k: K| !(#[trigger] k.cmp_spec(&k) is Less),
        forall|k: K| #[trigger] old(m)@.contains_key(k) ==> f.requires((k, old(m)@[k])),
    ensures
        final(m)@.dom() == old(m)@.dom(),
        forall|k: K| #[trigger] old(m)@.contains_key(k) ==> f.ensures((k, old(m)@[k]), final(m)@[k]),
{
    let ghost start = m@;
    let mut keys: Vec<K> = Vec::new();
    {
        let es = entries(&*m);
        for i in 0..es.len()
            invariant
                lists_entries(es@, start),
                keys@.len() == i,
                forall|j: int| 0 <= j < i ==> #[trigger] keys@[j] == es@[j].0,
        {
            keys.push(es[i].0);
        }
        proof {
            assert forall|a: int, b: int| 0 <= a < b < keys@.len() implies keys@[a] != keys@[b] by {
                assert(es@[a].0.cmp_spec(&es@[b].0) is Less);
                if keys@[a] == keys@[b] {
                    assert(keys@[a].cmp_spec(&keys@[a]) is Less);
                }
            }
            assert forall|k: K| start.contains_key(k) implies keys@.contains(k) by {
                let j = choose|j: int| 0 <= j < es@.len() && #[trigger] es@[j].0 == k;
                assert(keys@[j] == k);
            }
        }
    }
    for i in 0..keys.len()
        invariant
            obeys_cmp::<K>(),
            forall|a: int, b: int| 0 <= a < b < keys@.len() ==> keys@[a] != keys@[b],
            forall|j: int| 0 <= j < keys@.len() ==> start.contains_key(#[trigger] keys@[j]),
            forall|k: K| start.contains_key(k) ==> keys@.contains(k),
            forall|k: K| #[trigger] start.contains_key(k) ==> f.requires((k, start[k])),
            m@.dom() == start.dom(),
            forall|j: int| 0 <= j < i ==> f.ensures((keys@[j], start[keys@[j]]), #[trigger] m@[keys@[j]]),
            forall|j: int| i <= j < keys@.len() ==> #[trigger] m@[keys@[j]] == start[keys@[j]],
    {
        let k = keys[i];
        let v = m.remove(&k).unwrap();
        let nv = f(k, v);
        m.insert(k, nv);
        proof {
            assert(m@.dom() =~= start.dom());
            assert forall|j: int| 0 <= j < i + 1 implies f.ensures((keys@[j], start[keys@[j]]), #[trigger] m@[keys@[j]]) by {
                if j < i {
                    assert(keys@[j] != k);
                }
            }
            assert forall|j: int| i + 1 <= j < keys@.len() implies #[trigger] m@[keys@[j]] == start[keys@[j]] by {
                assert(keys@[j] != k);
            }
        }
    }
    proof {
        assert forall|k: K| #[trigger] start.contains_key(k) implies f.ensures((k, start[k]), m@[k]) by {
            assert(keys@.contains(k));
            let j = choose|j: int| 0 <= j < keys@.len() && keys@[j] == k;
            assert(f.ensures((keys@[j], start[keys@[j]]), m@[keys@[j]]));
        }
    }
}

/// `BTreeMap::get_mut`: a mutable reference to the value stored under `k`,
/// if there is one; what is written through it is what the map then holds
/// under `k`, and the map is otherwise unchanged.
#[verifier::external_body]
pub(crate) fn btree_get_mut<'a, K: Ord, V>(m: &'a mut BTreeMap<K, V>, k: &K) -> (r: Option<&'a mut V>)
    ensures
        obeys_cmp::<K>() ==> match r {
            Some(v) => old(m)@.contains_key(*k) && *v == old(m)@[*k] && final(m)@ == old(m)@.insert(
                *k,
                *final(v),
            ),
            None => !old(m)@.contains_key(*k) && final(m)@ == old(m)@,
        },
{
    m.get_mut(k)
}

} // verus!
