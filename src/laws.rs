use crate::node::{accept_all, then_accept, unchanged, Node, Step};
use crate::node_mut::{accept_all_mut, NodeMut, StepMut};
use vstd::prelude::*;

verus! {

/// Leaves end the descent: for a boolean, an integer or a string, `recurse`
/// leaves the visitor and the context as they were and succeeds, and the
/// mutating `recurse` can only leave the value itself as it was too.
pub proof fn leaf_recurse_is_noop<C, E, V>(
    b: bool,
    i: isize,
    s: String,
    v: V,
    c: C,
    ob: StepMut<bool, V, C, E>,
    oi: StepMut<isize, V, C, E>,
    os: StepMut<String, V, C, E>,
)
    ensures
        Node::<C, E, V>::recurse_step(&b, v, c) == unchanged::<V, C, E>(v, c),
        Node::<C, E, V>::recurse_step(&i, v, c) == unchanged::<V, C, E>(v, c),
        Node::<C, E, V>::recurse_step(&s, v, c) == unchanged::<V, C, E>(v, c),
        NodeMut::<C, E, V>::recurse_mut_ok(b, v, c, ob) <==> ob == (b, v, c, Ok::<(), E>(())),
        NodeMut::<C, E, V>::recurse_mut_ok(i, v, c, oi) <==> oi == (i, v, c, Ok::<(), E>(())),
        NodeMut::<C, E, V>::recurse_mut_ok(s, v, c, os) <==> os == (s, v, c, Ok::<(), E>(())),
{
}

/// A sequence is walked in index order: walking `s1 + s2` walks `s1` first,
/// and walks `s2` from where `s1` left the visitor and the context, only if
/// `s1` succeeded; otherwise its failure is the outcome.
pub proof fn sequence_walks_in_index_order<C, E, V, T: Node<C, E, V>>(
    s1: Seq<T>,
    s2: Seq<T>,
    v: V,
    c: C,
)
    ensures
        accept_all(s1 + s2, v, c) == ({
            let (v1, c1, r1) = accept_all(s1, v, c);
            match r1 {
                Ok(_) => accept_all(s2, v1, c1),
                Err(e) => (v1, c1, Err(e)),
            }
        }),
    decreases s1.len(),
{
    if s1.len() == 0 {
        assert(s1 + s2 =~= s2);
    } else {
        assert((s1 + s2)[0] == s1[0]);
        assert((s1 + s2).drop_first() =~= s1.drop_first() + s2);
        let (v0, c0, r0) = s1[0].accept_step(v, c);
        if r0 is Ok {
            sequence_walks_in_index_order(s1.drop_first(), s2, v0, c0);
        }
    }
}

/// The element at index `k + 1` onward of a sequence is reached only if the
/// walk of the elements before it succeeded: when walking the first `k + 1`
/// elements fails, walking the whole sequence gives that same outcome, with
/// the same error, and no later element is visited.
pub proof fn failure_stops_the_walk<C, E, V, T: Node<C, E, V>>(s: Seq<T>, k: int, v: V, c: C)
    requires
        0 <= k < s.len(),
        accept_all(s.take(k + 1), v, c).2 is Err,
    ensures
        accept_all(s, v, c) == accept_all(s.take(k + 1), v, c),
{
    assert(s.take(k + 1) + s.skip(k + 1) =~= s);
    sequence_walks_in_index_order(s.take(k + 1), s.skip(k + 1), v, c);
}

/// The one-element walk is accepting that element.
pub proof fn single_walk<C, E, V, T: Node<C, E, V>>(t: T, v: V, c: C)
    ensures
        accept_all(seq![t], v, c) == t.accept_step(v, c),
{
    let s = seq![t];
    assert(s.drop_first() =~= Seq::<T>::empty());
    let (v1, c1, r1) = t.accept_step(v, c);
    if r1 is Ok {
        assert(r1->Ok_0 == ());
        assert(accept_all(Seq::<T>::empty(), v1, c1) == (v1, c1, r1));
    }
}

/// An optional child makes no visit when absent, and exactly the one visit
/// of accepting its value when present.
pub proof fn optional_visits_at_most_once<C, E, V, T: Node<C, E, V>>(o: Option<T>, v: V, c: C)
    ensures
        o is None ==> o.recurse_step(v, c) == unchanged::<V, C, E>(v, c),
        o matches Some(t) ==> o.recurse_step(v, c) == t.accept_step(v, c),
        o.recurse_step(v, c) == accept_all(
            match o {
                Some(t) => seq![t],
                None => Seq::<T>::empty(),
            },
            v,
            c,
        ),
{
    if let Some(t) = o {
        single_walk::<C, E, V, T>(t, v, c);
    }
}

/// A pair is walked as the sequence of its two elements: element 0, then
/// element 1, which is reached only if element 0 succeeded.
pub proof fn pair_walks_as_sequence<C, E, V, T: Node<C, E, V>>(p: (T, T), v: V, c: C)
    ensures
        p.recurse_step(v, c) == accept_all(seq![p.0, p.1], v, c),
{
    let s = seq![p.0, p.1];
    assert(s.drop_first() =~= seq![p.1]);
    single_walk::<C, E, V, T>(p.1, v, c);
    let (v0, c0, r0) = p.0.accept_step(v, c);
    single_walk::<C, E, V, T>(p.1, v0, c0);
}

/// A read-only walk depends on nothing but the node, the visitor and the
/// context: two walks from the same ones give the same outcome, and a walk
/// whose visitor and context come back as they were gives, when run again
/// from where it ended, that same outcome again.
pub proof fn read_only_walk_is_repeatable<C, E, V, T: Node<C, E, V>>(
    t: T,
    v: V,
    c: C,
    first: Step<V, C, E>,
    second: Step<V, C, E>,
)
    requires
        first == t.accept_step(v, c),
        second == t.accept_step(v, c),
    ensures
        first == second,
        first.0 == v && first.1 == c ==> t.accept_step(first.0, first.1) == first,
{
}

/// Walking `s` and then `t`, one node after the other, is walking `s`
/// followed by `t` as one sequence.
pub proof fn walk_then_accept<C, E, V, T: Node<C, E, V>>(s: Seq<T>, t: T, v: V, c: C)
    ensures
        accept_all(s.push(t), v, c) == then_accept(accept_all(s, v, c), t),
{
    assert(s.push(t) =~= s + seq![t]);
    sequence_walks_in_index_order(s, seq![t], v, c);
    let (v1, c1, r1) = accept_all(s, v, c);
    single_walk::<C, E, V, T>(t, v1, c1);
}

/// A shared pointer is either left as it was, with the visitor and the
/// context untouched and no error, or its referent is accepted in place;
/// a failure can come only from the referent's own walk.
pub proof fn shared_pointer_skips_or_descends<C, E, V, T: NodeMut<C, E, V>>(
    p: std::rc::Rc<T>,
    v: V,
    c: C,
    out: StepMut<std::rc::Rc<T>, V, C, E>,
)
    requires
        p.recurse_mut_ok(v, c, out),
    ensures
        out == (p, v, c, Ok::<(), E>(())) || (*p).accept_mut_ok(v, c, (*out.0, out.1, out.2, out.3)),
        out.3 is Err ==> (*p).accept_mut_ok(v, c, (*out.0, out.1, out.2, out.3)),
{
}

/// The one-element mutating walk is accepting that element in place.
pub proof fn single_walk_mut<C, E, V, T: NodeMut<C, E, V>>(t: T, v: V, c: C, out: StepMut<T, V, C, E>)
    ensures
        accept_all_mut(seq![t], v, c, seq![out.0], out.1, out.2, out.3) <==> t.accept_mut_ok(v, c, out),
{
    let s0 = seq![t];
    let s1 = seq![out.0];
    assert(s0.drop_first() =~= Seq::<T>::empty());
    assert(s1.drop_first() =~= Seq::<T>::empty());
    assert(s0[0] == t && s1[0] == out.0);
    if out.3 is Ok {
        assert(out.3->Ok_0 == ());
        assert(out == (out.0, out.1, out.2, Ok::<(), E>(())));
        if t.accept_mut_ok(v, c, out) {
            assert(accept_all_mut(s0.drop_first(), out.1, out.2, s1.drop_first(), out.1, out.2, out.3));
        }
        if accept_all_mut(s0, v, c, s1, out.1, out.2, out.3) {
            let (vm, cm) = choose|vm: V, cm: C|
                #[trigger] t.accept_mut_ok(v, c, (out.0, vm, cm, Ok(())))
                    && accept_all_mut(s0.drop_first(), vm, cm, s1.drop_first(), out.1, out.2, out.3);
            assert(vm == out.1 && cm == out.2);
        }
    } else {
        if t.accept_mut_ok(v, c, out) {
            assert(accept_all_mut(s0, v, c, s1, out.1, out.2, out.3));
        }
        if accept_all_mut(s0, v, c, s1, out.1, out.2, out.3) {
            if exists|vm: V, cm: C|
                #[trigger] t.accept_mut_ok(v, c, (out.0, vm, cm, Ok(())))
                    && accept_all_mut(s0.drop_first(), vm, cm, s1.drop_first(), out.1, out.2, out.3) {
                let (vm, cm) = choose|vm: V, cm: C|
                    #[trigger] t.accept_mut_ok(v, c, (out.0, vm, cm, Ok(())))
                        && accept_all_mut(s0.drop_first(), vm, cm, s1.drop_first(), out.1, out.2, out.3);
                assert(out.3 is Ok);
            }
        }
    }
}

/// A pair is rewritten as the sequence of its two elements: element 0,
/// then element 1, which is reached only if element 0 succeeded and is
/// otherwise left as it was.
pub proof fn mutable_pair_walks_as_sequence<C, E, V, T: NodeMut<C, E, V>>(
    p: (T, T),
    v: V,
    c: C,
    out: StepMut<(T, T), V, C, E>,
)
    ensures
        p.recurse_mut_ok(v, c, out) <==> accept_all_mut(
            seq![p.0, p.1],
            v,
            c,
            seq![out.0.0, out.0.1],
            out.1,
            out.2,
            out.3,
        ),
{
    let s0 = seq![p.0, p.1];
    let s1 = seq![out.0.0, out.0.1];
    assert(s0.drop_first() =~= seq![p.1]);
    assert(s1.drop_first() =~= seq![out.0.1]);
    assert forall|vm: V, cm: C|
        accept_all_mut(seq![p.1], vm, cm, seq![out.0.1], out.1, out.2, out.3) <==> #[trigger] p.1.accept_mut_ok(
            vm,
            cm,
            (out.0.1, out.1, out.2, out.3),
        ) by {
        single_walk_mut::<C, E, V, T>(p.1, vm, cm, (out.0.1, out.1, out.2, out.3));
    }
    assert(seq![out.0.1] == seq![p.1] <==> out.0.1 == p.1) by {
        if seq![out.0.1] == seq![p.1] {
            assert(seq![out.0.1][0] == seq![p.1][0]);
        }
    }
}

} // verus!
