use crate::node::{accept_all, Node, Step};
use crate::node_mut::{accept_all_mut, NodeMut, StepMut};
use std::collections::BTreeMap;
use vstd::laws_cmp::obeys_cmp;
use vstd::prelude::*;
use vstd::std_specs::btree::{
    increasing_seq, into_iter_keys, into_iter_values, spec_keys_iter, spec_values_iter,
};
use vstd::std_specs::iter::IteratorSpec;

verus! {

/// A key type whose order is a total order, so that a map keyed by it
/// hands out its values in ascending key order.
pub trait OrderedKey: Ord + Copy + Sized {
    proof fn order_is_total()
        ensures
            obeys_cmp::<Self>(),
    ;
}

impl OrderedKey for u32 {
    proof fn order_is_total() {
    }
}

impl OrderedKey for u64 {
    proof fn order_is_total() {
    }
}

impl OrderedKey for usize {
    proof fn order_is_total() {
    }
}

impl OrderedKey for i64 {
    proof fn order_is_total() {
    }
}

impl OrderedKey for isize {
    proof fn order_is_total() {
    }
}

/// The values of `m`, in the order in which the map hands them out.
pub open spec fn values_in_key_order<K, W>(m: &BTreeMap<K, W>) -> Seq<W> {
    into_iter_values(spec_values_iter(m))
}

/// Accepts each value of `m` in ascending order of its key, stopping at the
/// first failure, whose error is returned unchanged; the keys themselves are
/// not visited.
pub fn accept_values<C, E, V, K: OrderedKey, W: Node<C, E, V>>(
    m: &BTreeMap<K, W>,
    c: &mut C,
    v: &mut V,
) -> (r: Result<(), E>)
    ensures
        (*final(v), *final(c), r) == accept_all(values_in_key_order(m), *old(v), *old(c)),
        exists|ks: Seq<K>|
            {
                &&& increasing_seq(ks)
                &&& ks.to_set() == m@.dom()
                &&& ks.no_duplicates()
                &&& values_in_key_order(m) == ks.map(|i: int, k: K| m@[k])
            },
{
    proof {
        K::order_is_total();
    }
    let ghost all = values_in_key_order(m);
    assert(all.skip(0) =~= all);
    for w in it: m.values()
        invariant
            all == values_in_key_order(m),
            it.seq().unref() == all,
            exists|ks: Seq<K>|
                {
                    &&& increasing_seq(ks)
                    &&& ks.to_set() == m@.dom()
                    &&& ks.no_duplicates()
                    &&& all == ks.map(|i: int, k: K| m@[k])
                },
            accept_all(all, *old(v), *old(c)) == accept_all(all.skip(it.index()), *v, *c),
    {
        let ghost k = it.index();
        assert(k < all.len());
        let ghost vi = *v;
        let ghost ci = *c;
        let r = w.accept(c, v);
        proof {
            let rest = all.skip(k);
            assert(rest.drop_first() =~= all.skip(k + 1));
            assert(rest[0] == *w);
            assert(accept_all(rest, vi, ci) == match r {
                Ok(_) => accept_all(all.skip(k + 1), *v, *c),
                Err(e) => (*v, *c, Err(e)),
            });
        }
        if let Err(e) = r {
            return Err(e);
        }
    }
    Ok(())
}

impl<C, E, V, K: OrderedKey, W: Node<C, E, V>> Node<C, E, V> for BTreeMap<K, W> {
    open spec fn accept_step(&self, v: V, c: C) -> Step<V, C, E> {
        accept_all(values_in_key_order(self), v, c)
    }

    open spec fn recurse_step(&self, v: V, c: C) -> Step<V, C, E> {
        accept_all(values_in_key_order(self), v, c)
    }

    fn accept(&self, c: &mut C, v: &mut V) -> (r: Result<(), E>) {
        self.recurse(c, v)
    }

    fn recurse(&self, c: &mut C, v: &mut V) -> (r: Result<(), E>) {
        accept_values(self, c, v)
    }
}

/// The keys of `m`, in the order in which the map hands them out.
pub open spec fn keys_in_key_order<K, W>(m: &BTreeMap<K, W>) -> Seq<K> {
    into_iter_keys(spec_keys_iter(m))
}

/// The values that `m` maps the keys of `ks` to, in the order of `ks`.
pub open spec fn keyed<K, W>(ks: Seq<K>, m: Map<K, W>) -> Seq<W> {
    ks.map_values(|k: K| m[k])
}

/// Accepts each value of `m` in the order of its keys, rewriting it in
/// place, stopping at the first failure, whose error is returned unchanged;
/// the keys are neither visited nor changed, and the values after the
/// failing one are left as they were.
pub fn accept_values_mut<C, E, V, K: OrderedKey, W: NodeMut<C, E, V>>(
    m: &mut BTreeMap<K, W>,
    c: &mut C,
    v: &mut V,
) -> (r: Result<(), E>)
    ensures
        final(m)@.dom() == old(m)@.dom(),
        keys_in_key_order(old(m)).to_set() == old(m)@.dom(),
        keys_in_key_order(old(m)).no_duplicates(),
        accept_all_mut(
            keyed(keys_in_key_order(old(m)), old(m)@),
            *old(v),
            *old(c),
            keyed(keys_in_key_order(old(m)), final(m)@),
            *final(v),
            *final(c),
            r,
        ),
{
    proof {
        K::order_is_total();
    }
    let ghost ks = keys_in_key_order(m);
    let ghost m0 = m@;
    let mut keys: Vec<K> = Vec::new();
    for k in it: m.keys()
        invariant
            ks == keys_in_key_order(m),
            it.seq().unref() == ks,
            keys@ == ks.take(it.index()),
    {
        keys.push(*k);
        proof {
            assert(keys@ =~= ks.take(it.index() + 1));
        }
    }
    assert(keys@ =~= ks);
    assert(ks.to_set() == m0.dom());
    assert(ks.no_duplicates());
    let mut i: usize = 0;
    assert(keyed(ks, m0).skip(0) =~= keyed(ks, m0));
    assert(keyed(ks, m@).take(0) + keyed(ks, m0) =~= keyed(ks, m0));
    while i < keys.len()
        invariant
            0 <= i <= keys.len(),
            obeys_cmp::<K>(),
            keys@ == ks,
            m0 == old(m)@,
            ks == keys_in_key_order(old(m)),
            ks.to_set() == m0.dom(),
            ks.no_duplicates(),
            m@.dom() == m0.dom(),
            forall|j: int| i <= j < ks.len() ==> m@[#[trigger] ks[j]] == m0[ks[j]],
            forall|s1: Seq<W>, v1: V, c1: C, r1: Result<(), E>|
                #[trigger] accept_all_mut(keyed(ks, m0).skip(i as int), *v, *c, s1, v1, c1, r1)
                    ==> accept_all_mut(keyed(ks, m0), *old(v), *old(c), keyed(ks, m@).take(i as int) + s1, v1, c1, r1),
        decreases keys.len() - i,
    {
        let k = keys[i];
        assert(k == ks[i as int]);
        assert(ks.to_set().contains(ks[i as int]));
        assert(m@.contains_key(k));
        assert(m@[k] == m0[k]);
        let ghost mi = m@;
        let ghost vi = *v;
        let ghost ci = *c;
        let mut w = match m.remove(&k) {
            Some(w) => w,
            None => {
                assert(false);
                return Ok(());
            },
        };
        assert(w == m0[k]);
        let r = NodeMut::accept(&mut w, c, v);
        let ghost w1 = w;
        m.insert(k, w);
        proof {
            assert(m@ == mi.insert(k, w1));
            assert(m@.dom() =~= m0.dom());
            assert forall|j: int| i + 1 <= j < ks.len() implies m@[#[trigger] ks[j]] == m0[ks[j]] by {
                assert(ks[j] != ks[i as int]);
            }
            let rest = keyed(ks, m0).skip(i as int);
            assert(rest[0] == m0[k]);
            assert(rest.drop_first() =~= keyed(ks, m0).skip(i + 1));
            assert(keyed(ks, m@).take(i as int) =~= keyed(ks, mi).take(i as int)) by {
                assert forall|j: int| 0 <= j < i implies m@[ks[j]] == mi[ks[j]] by {
                    assert(ks[j] != ks[i as int]);
                }
            }
            if r is Ok {
                assert(r->Ok_0 == ());
                assert forall|s1: Seq<W>, v1: V, c1: C, r1: Result<(), E>|
                    #[trigger] accept_all_mut(keyed(ks, m0).skip(i + 1), *v, *c, s1, v1, c1, r1)
                        implies accept_all_mut(keyed(ks, m0), *old(v), *old(c), keyed(ks, m@).take(i + 1) + s1, v1, c1, r1) by {
                    let full = seq![w1] + s1;
                    assert(full[0] == w1);
                    assert(full.drop_first() =~= s1);
                    assert(r == Ok::<(), E>(()));
                    assert(rest[0].accept_mut_ok(vi, ci, (full[0], *v, *c, Ok(()))));
                    assert(accept_all_mut(rest.drop_first(), *v, *c, full.drop_first(), v1, c1, r1));
                    assert(accept_all_mut(rest, vi, ci, full, v1, c1, r1));
                    assert(keyed(ks, mi).take(i as int) + full =~= keyed(ks, m@).take(i + 1) + s1);
                }
            }
            if r is Err {
                let out = keyed(ks, m@).skip(i as int);
                assert(out[0] == w1);
                assert(out.drop_first() =~= rest.drop_first());
                assert(accept_all_mut(rest, vi, ci, out, *v, *c, r));
                assert(keyed(ks, mi).take(i as int) + out =~= keyed(ks, m@));
            }
        }
        if let Err(e) = r {
            return Err(e);
        }
        i = i + 1;
    }
    proof {
        let done = keyed(ks, m0).skip(i as int);
        assert(done =~= Seq::<W>::empty());
        assert(accept_all_mut(done, *v, *c, Seq::<W>::empty(), *v, *c, Ok(())));
        assert(keyed(ks, m@).take(i as int) + Seq::<W>::empty() =~= keyed(ks, m@));
    }
    Ok(())
}

impl<C, E, V, K: OrderedKey, W: NodeMut<C, E, V>> NodeMut<C, E, V> for BTreeMap<K, W> {
    open spec fn accept_mut_ok(self, v: V, c: C, out: StepMut<Self, V, C, E>) -> bool {
        self.recurse_mut_ok(v, c, out)
    }

    open spec fn recurse_mut_ok(self, v: V, c: C, out: StepMut<Self, V, C, E>) -> bool {
        let ks = keys_in_key_order(&self);
        &&& out.0@.dom() == self@.dom()
        &&& accept_all_mut(keyed(ks, self@), v, c, keyed(ks, out.0@), out.1, out.2, out.3)
    }

    fn accept(&mut self, c: &mut C, v: &mut V) -> (r: Result<(), E>) {
        NodeMut::recurse(self, c, v)
    }

    fn recurse(&mut self, c: &mut C, v: &mut V) -> (r: Result<(), E>) {
        accept_values_mut(self, c, v)
    }
}

} // verus!

