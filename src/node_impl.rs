use crate::node::{accept_all, then_accept, unchanged, Node, Step};
use crate::node_mut::{accept_all_mut, first_then, unchanged_mut, NodeMut, StepMut};
use vstd::prelude::*;

verus! {

impl<C, E, V> Node<C, E, V> for bool {
    open spec fn accept_step(&self, v: V, c: C) -> Step<V, C, E> {
        unchanged(v, c)
    }

    open spec fn recurse_step(&self, v: V, c: C) -> Step<V, C, E> {
        unchanged(v, c)
    }

    fn accept(&self, c: &mut C, v: &mut V) -> (r: Result<(), E>) {
        self.recurse(c, v)
    }

    fn recurse(&self, c: &mut C, v: &mut V) -> (r: Result<(), E>) {
        Ok(())
    }
}

impl<C, E, V, T: Node<C, E, V>> Node<C, E, V> for Vec<T> {
    open spec fn accept_step(&self, v: V, c: C) -> Step<V, C, E> {
        accept_all(self@, v, c)
    }

    open spec fn recurse_step(&self, v: V, c: C) -> Step<V, C, E> {
        accept_all(self@, v, c)
    }

    fn accept(&self, c: &mut C, v: &mut V) -> (r: Result<(), E>) {
        self.recurse(c, v)
    }

    fn recurse(&self, c: &mut C, v: &mut V) -> (r: Result<(), E>) {
        accept_each(self, c, v)
    }
}

impl<C, E, V> Node<C, E, V> for isize {
    open spec fn accept_step(&self, v: V, c: C) -> Step<V, C, E> {
        unchanged(v, c)
    }

    open spec fn recurse_step(&self, v: V, c: C) -> Step<V, C, E> {
        unchanged(v, c)
    }

    fn accept(&self, c: &mut C, v: &mut V) -> (r: Result<(), E>) {
        self.recurse(c, v)
    }

    fn recurse(&self, c: &mut C, v: &mut V) -> (r: Result<(), E>) {
        Ok(())
    }
}

impl<C, E, V> Node<C, E, V> for String {
    open spec fn accept_step(&self, v: V, c: C) -> Step<V, C, E> {
        unchanged(v, c)
    }

    open spec fn recurse_step(&self, v: V, c: C) -> Step<V, C, E> {
        unchanged(v, c)
    }

    fn accept(&self, c: &mut C, v: &mut V) -> (r: Result<(), E>) {
        self.recurse(c, v)
    }

    fn recurse(&self, c: &mut C, v: &mut V) -> (r: Result<(), E>) {
        Ok(())
    }
}

impl<C, E, V, T: Node<C, E, V>> Node<C, E, V> for Option<T> {
    open spec fn accept_step(&self, v: V, c: C) -> Step<V, C, E> {
        self.recurse_step(v, c)
    }

    open spec fn recurse_step(&self, v: V, c: C) -> Step<V, C, E> {
        match self {
            Some(t) => t.accept_step(v, c),
            None => unchanged(v, c),
        }
    }

    fn accept(&self, c: &mut C, v: &mut V) -> (r: Result<(), E>) {
        self.recurse(c, v)
    }

    fn recurse(&self, c: &mut C, v: &mut V) -> (r: Result<(), E>) {
        match self {
            Some(t) => t.accept(c, v),
            None => Ok(()),
        }
    }
}

impl<C, E, V, T: Node<C, E, V>> Node<C, E, V> for Box<T> {
    open spec fn accept_step(&self, v: V, c: C) -> Step<V, C, E> {
        (**self).accept_step(v, c)
    }

    open spec fn recurse_step(&self, v: V, c: C) -> Step<V, C, E> {
        (**self).accept_step(v, c)
    }

    fn accept(&self, c: &mut C, v: &mut V) -> (r: Result<(), E>) {
        self.recurse(c, v)
    }

    fn recurse(&self, c: &mut C, v: &mut V) -> (r: Result<(), E>) {
        (**self).accept(c, v)
    }
}

impl<C, E, V, T: Node<C, E, V>> Node<C, E, V> for std::rc::Rc<T> {
    open spec fn accept_step(&self, v: V, c: C) -> Step<V, C, E> {
        (**self).accept_step(v, c)
    }

    open spec fn recurse_step(&self, v: V, c: C) -> Step<V, C, E> {
        (**self).accept_step(v, c)
    }

    fn accept(&self, c: &mut C, v: &mut V) -> (r: Result<(), E>) {
        self.recurse(c, v)
    }

    fn recurse(&self, c: &mut C, v: &mut V) -> (r: Result<(), E>) {
        (**self).accept(c, v)
    }
}

impl<C, E, V, T1: Node<C, E, V>, T2: Node<C, E, V>> Node<C, E, V> for (T1, T2) {
    open spec fn accept_step(&self, v: V, c: C) -> Step<V, C, E> {
        self.recurse_step(v, c)
    }

    open spec fn recurse_step(&self, v: V, c: C) -> Step<V, C, E> {
        then_accept(self.0.accept_step(v, c), self.1)
    }

    fn accept(&self, c: &mut C, v: &mut V) -> (r: Result<(), E>) {
        self.recurse(c, v)
    }

    fn recurse(&self, c: &mut C, v: &mut V) -> (r: Result<(), E>) {
        self.0.accept(c, v)?;
        self.1.accept(c, v)
    }
}

impl<C, E, V, T1: Node<C, E, V>, T2: Node<C, E, V>, T3: Node<C, E, V>> Node<C, E, V> for (
    T1,
    T2,
    T3,
) {
    open spec fn accept_step(&self, v: V, c: C) -> Step<V, C, E> {
        self.recurse_step(v, c)
    }

    open spec fn recurse_step(&self, v: V, c: C) -> Step<V, C, E> {
        then_accept(then_accept(self.0.accept_step(v, c), self.1), self.2)
    }

    fn accept(&self, c: &mut C, v: &mut V) -> (r: Result<(), E>) {
        self.recurse(c, v)
    }

    fn recurse(&self, c: &mut C, v: &mut V) -> (r: Result<(), E>) {
        self.0.accept(c, v)?;
        self.1.accept(c, v)?;
        self.2.accept(c, v)
    }
}

impl<
    C,
    E,
    V,
    T1: Node<C, E, V>,
    T2: Node<C, E, V>,
    T3: Node<C, E, V>,
    T4: Node<C, E, V>,
> Node<C, E, V> for (T1, T2, T3, T4) {
    open spec fn accept_step(&self, v: V, c: C) -> Step<V, C, E> {
        self.recurse_step(v, c)
    }

    open spec fn recurse_step(&self, v: V, c: C) -> Step<V, C, E> {
        then_accept(then_accept(then_accept(self.0.accept_step(v, c), self.1), self.2), self.3)
    }

    fn accept(&self, c: &mut C, v: &mut V) -> (r: Result<(), E>) {
        self.recurse(c, v)
    }

    fn recurse(&self, c: &mut C, v: &mut V) -> (r: Result<(), E>) {
        self.0.accept(c, v)?;
        self.1.accept(c, v)?;
        self.2.accept(c, v)?;
        self.3.accept(c, v)
    }
}

impl<C, E, V> NodeMut<C, E, V> for bool {
    open spec fn accept_mut_ok(self, v: V, c: C, out: StepMut<Self, V, C, E>) -> bool {
        unchanged_mut(self, v, c, out)
    }

    open spec fn recurse_mut_ok(self, v: V, c: C, out: StepMut<Self, V, C, E>) -> bool {
        unchanged_mut(self, v, c, out)
    }

    fn accept(&mut self, c: &mut C, v: &mut V) -> (r: Result<(), E>) {
        NodeMut::recurse(self, c, v)
    }

    fn recurse(&mut self, c: &mut C, v: &mut V) -> (r: Result<(), E>) {
        Ok(())
    }
}

impl<C, E, V> NodeMut<C, E, V> for isize {
    open spec fn accept_mut_ok(self, v: V, c: C, out: StepMut<Self, V, C, E>) -> bool {
        unchanged_mut(self, v, c, out)
    }

    open spec fn recurse_mut_ok(self, v: V, c: C, out: StepMut<Self, V, C, E>) -> bool {
        unchanged_mut(self, v, c, out)
    }

    fn accept(&mut self, c: &mut C, v: &mut V) -> (r: Result<(), E>) {
        NodeMut::recurse(self, c, v)
    }

    fn recurse(&mut self, c: &mut C, v: &mut V) -> (r: Result<(), E>) {
        Ok(())
    }
}

impl<C, E, V> NodeMut<C, E, V> for String {
    open spec fn accept_mut_ok(self, v: V, c: C, out: StepMut<Self, V, C, E>) -> bool {
        unchanged_mut(self, v, c, out)
    }

    open spec fn recurse_mut_ok(self, v: V, c: C, out: StepMut<Self, V, C, E>) -> bool {
        unchanged_mut(self, v, c, out)
    }

    fn accept(&mut self, c: &mut C, v: &mut V) -> (r: Result<(), E>) {
        NodeMut::recurse(self, c, v)
    }

    fn recurse(&mut self, c: &mut C, v: &mut V) -> (r: Result<(), E>) {
        Ok(())
    }
}

impl<C, E, V, T: NodeMut<C, E, V>> NodeMut<C, E, V> for Option<T> {
    open spec fn accept_mut_ok(self, v: V, c: C, out: StepMut<Self, V, C, E>) -> bool {
        self.recurse_mut_ok(v, c, out)
    }

    open spec fn recurse_mut_ok(self, v: V, c: C, out: StepMut<Self, V, C, E>) -> bool {
        match self {
            Some(t) => out.0 is Some && t.accept_mut_ok(v, c, (out.0->0, out.1, out.2, out.3)),
            None => unchanged_mut(self, v, c, out),
        }
    }

    fn accept(&mut self, c: &mut C, v: &mut V) -> (r: Result<(), E>) {
        NodeMut::recurse(self, c, v)
    }

    fn recurse(&mut self, c: &mut C, v: &mut V) -> (r: Result<(), E>) {
        match self {
            Some(t) => NodeMut::accept(t, c, v),
            None => Ok(()),
        }
    }
}

impl<C, E, V, T: NodeMut<C, E, V>> NodeMut<C, E, V> for Box<T> {
    open spec fn accept_mut_ok(self, v: V, c: C, out: StepMut<Self, V, C, E>) -> bool {
        self.recurse_mut_ok(v, c, out)
    }

    open spec fn recurse_mut_ok(self, v: V, c: C, out: StepMut<Self, V, C, E>) -> bool {
        (*self).accept_mut_ok(v, c, (*out.0, out.1, out.2, out.3))
    }

    fn accept(&mut self, c: &mut C, v: &mut V) -> (r: Result<(), E>) {
        NodeMut::recurse(self, c, v)
    }

    fn recurse(&mut self, c: &mut C, v: &mut V) -> (r: Result<(), E>) {
        NodeMut::accept(&mut **self, c, v)
    }
}

impl<C, E, V, T: NodeMut<C, E, V>> NodeMut<C, E, V> for Vec<T> {
    open spec fn accept_mut_ok(self, v: V, c: C, out: StepMut<Self, V, C, E>) -> bool {
        self.recurse_mut_ok(v, c, out)
    }

    open spec fn recurse_mut_ok(self, v: V, c: C, out: StepMut<Self, V, C, E>) -> bool {
        accept_all_mut(self@, v, c, out.0@, out.1, out.2, out.3)
    }

    fn accept(&mut self, c: &mut C, v: &mut V) -> (r: Result<(), E>) {
        NodeMut::recurse(self, c, v)
    }

    fn recurse(&mut self, c: &mut C, v: &mut V) -> (r: Result<(), E>) {
        accept_each_mut(self, c, v)
    }
}

/// Relies on `std::rc::Rc::get_mut`: it hands out the referent for mutation
/// when no other `Rc` or `Weak` points to the same allocation, and `None`
/// otherwise, leaving the pointer untouched.
#[verifier::external_body]
fn exclusive_referent<T>(p: &mut std::rc::Rc<T>) -> (res: Option<&mut T>)
    ensures
        match res {
            Some(x) => *x == **old(p) && **final(p) == *final(x),
            None => *final(p) == *old(p),
        },
{
    std::rc::Rc::get_mut(p)
}

/// Accepts the referent of a shared pointer in place when exclusive access
/// to it was had (`Some`); when it was not (`None`), changes nothing and
/// succeeds.
pub fn accept_if_exclusive<C, E, V, T: NodeMut<C, E, V>>(
    referent: Option<&mut T>,
    c: &mut C,
    v: &mut V,
) -> (r: Result<(), E>)
    ensures
        referent is None ==> *final(v) == *old(v) && *final(c) == *old(c) && r == Ok::<(), E>(()),
        referent matches Some(x) ==> (*x).accept_mut_ok(
            *old(v),
            *old(c),
            (*final(x), *final(v), *final(c), r),
        ),
{
    match referent {
        Some(x) => NodeMut::accept(x, c, v),
        None => Ok(()),
    }
}

impl<C, E, V, T: NodeMut<C, E, V>> NodeMut<C, E, V> for std::rc::Rc<T> {
    open spec fn accept_mut_ok(self, v: V, c: C, out: StepMut<Self, V, C, E>) -> bool {
        self.recurse_mut_ok(v, c, out)
    }

    /// A referent that another owner also holds is left as it is, without
    /// error; one held by this owner alone is accepted in place.
    open spec fn recurse_mut_ok(self, v: V, c: C, out: StepMut<Self, V, C, E>) -> bool {
        ||| unchanged_mut(self, v, c, out)
        ||| (*self).accept_mut_ok(v, c, (*out.0, out.1, out.2, out.3))
    }

    fn accept(&mut self, c: &mut C, v: &mut V) -> (r: Result<(), E>) {
        NodeMut::recurse(self, c, v)
    }

    fn recurse(&mut self, c: &mut C, v: &mut V) -> (r: Result<(), E>) {
        accept_if_exclusive(exclusive_referent(self), c, v)
    }
}

impl<C, E, V, T1: NodeMut<C, E, V>, T2: NodeMut<C, E, V>> NodeMut<C, E, V> for (T1, T2) {
    open spec fn accept_mut_ok(self, v: V, c: C, out: StepMut<Self, V, C, E>) -> bool {
        self.recurse_mut_ok(v, c, out)
    }

    open spec fn recurse_mut_ok(self, v: V, c: C, out: StepMut<Self, V, C, E>) -> bool {
        first_then(
            self.0, out.0.0, v, c, out.1, out.2, out.3, out.0.1 == self.1,
            |v1: V, c1: C|
                self.1.accept_mut_ok(v1, c1, (out.0.1, out.1, out.2, out.3)))
    }

    fn accept(&mut self, c: &mut C, v: &mut V) -> (r: Result<(), E>) {
        NodeMut::recurse(self, c, v)
    }

    fn recurse(&mut self, c: &mut C, v: &mut V) -> (r: Result<(), E>) {
        let r0 = NodeMut::accept(&mut self.0, c, v);
        if let Err(e) = r0 {
            return Err(e);
        }
        let r = NodeMut::accept(&mut self.1, c, v);
        proof {
            assert(r0->Ok_0 == ());
            assert(r0 == Ok::<(), E>(()));
        }
        r
    }
}

impl<C, E, V, T1: NodeMut<C, E, V>, T2: NodeMut<C, E, V>, T3: NodeMut<C, E, V>> NodeMut<C, E, V> for (T1, T2, T3) {
    open spec fn accept_mut_ok(self, v: V, c: C, out: StepMut<Self, V, C, E>) -> bool {
        self.recurse_mut_ok(v, c, out)
    }

    open spec fn recurse_mut_ok(self, v: V, c: C, out: StepMut<Self, V, C, E>) -> bool {
        first_then(
            self.0, out.0.0, v, c, out.1, out.2, out.3, out.0.1 == self.1 && out.0.2 == self.2,
            |v1: V, c1: C|
                first_then(self.1, out.0.1, v1, c1, out.1, out.2, out.3, out.0.2 == self.2,
                    |v2: V, c2: C|
                        self.2.accept_mut_ok(v2, c2, (out.0.2, out.1, out.2, out.3))))
    }

    fn accept(&mut self, c: &mut C, v: &mut V) -> (r: Result<(), E>) {
        NodeMut::recurse(self, c, v)
    }

    fn recurse(&mut self, c: &mut C, v: &mut V) -> (r: Result<(), E>) {
        let r0 = NodeMut::accept(&mut self.0, c, v);
        if let Err(e) = r0 {
            return Err(e);
        }
        let r1 = NodeMut::accept(&mut self.1, c, v);
        if let Err(e) = r1 {
            return Err(e);
        }
        let r = NodeMut::accept(&mut self.2, c, v);
        proof {
            assert(r0->Ok_0 == ());
            assert(r0 == Ok::<(), E>(()));
            assert(r1->Ok_0 == ());
            assert(r1 == Ok::<(), E>(()));
        }
        r
    }
}

impl<C, E, V, T1: NodeMut<C, E, V>, T2: NodeMut<C, E, V>, T3: NodeMut<C, E, V>, T4: NodeMut<C, E, V>> NodeMut<C, E, V> for (T1, T2, T3, T4) {
    open spec fn accept_mut_ok(self, v: V, c: C, out: StepMut<Self, V, C, E>) -> bool {
        self.recurse_mut_ok(v, c, out)
    }

    open spec fn recurse_mut_ok(self, v: V, c: C, out: StepMut<Self, V, C, E>) -> bool {
        first_then(
            self.0, out.0.0, v, c, out.1, out.2, out.3, out.0.1 == self.1 && out.0.2 == self.2 && out.0.3 == self.3,
            |v1: V, c1: C|
                first_then(self.1, out.0.1, v1, c1, out.1, out.2, out.3, out.0.2 == self.2 && out.0.3 == self.3,
                    |v2: V, c2: C|
                        first_then(self.2, out.0.2, v2, c2, out.1, out.2, out.3, out.0.3 == self.3,
                            |v3: V, c3: C|
                                self.3.accept_mut_ok(v3, c3, (out.0.3, out.1, out.2, out.3)))))
    }

    fn accept(&mut self, c: &mut C, v: &mut V) -> (r: Result<(), E>) {
        NodeMut::recurse(self, c, v)
    }

    fn recurse(&mut self, c: &mut C, v: &mut V) -> (r: Result<(), E>) {
        let r0 = NodeMut::accept(&mut self.0, c, v);
        if let Err(e) = r0 {
            return Err(e);
        }
        let r1 = NodeMut::accept(&mut self.1, c, v);
        if let Err(e) = r1 {
            return Err(e);
        }
        let r2 = NodeMut::accept(&mut self.2, c, v);
        if let Err(e) = r2 {
            return Err(e);
        }
        let r = NodeMut::accept(&mut self.3, c, v);
        proof {
            assert(r0->Ok_0 == ());
            assert(r0 == Ok::<(), E>(()));
            assert(r1->Ok_0 == ());
            assert(r1 == Ok::<(), E>(()));
            assert(r2->Ok_0 == ());
            assert(r2 == Ok::<(), E>(()));
        }
        r
    }
}

/// Accepts each node of `items` in index order, stopping at the first
/// failure, whose error is returned unchanged.
pub fn accept_each<C, E, V, T: Node<C, E, V>>(items: &Vec<T>, c: &mut C, v: &mut V) -> (r: Result<
    (),
    E,
>)
ensures
    (*final(v), *final(c), r) == accept_all(items@, *old(v), *old(c)),
{
    let mut i: usize = 0;
    assert(items@.skip(0) =~= items@);
    while i < items.len()
        invariant
            0 <= i <= items.len(),
            accept_all(items@, *old(v), *old(c)) == accept_all(items@.skip(i as int), *v, *c),
        decreases items.len() - i,
    {
        let ghost vi = *v;
        let ghost ci = *c;
        let r = items[i].accept(c, v);
        proof {
            let rest = items@.skip(i as int);
            assert(rest[0] == items@[i as int]);
            assert(rest.drop_first() =~= items@.skip(i + 1));
            assert(accept_all(rest, vi, ci) == match r {
                Ok(_) => accept_all(items@.skip(i + 1), *v, *c),
                Err(e) => (*v, *c, Err(e)),
            });
        }
        match r {
            Ok(_) => {},
            Err(e) => {
                return Err(e);
            },
        }
        i = i + 1;
    }
    proof {
        assert(items@.skip(i as int).len() == 0);
    }
    Ok(())
}

/// Accepts each node of `items` in index order, rewriting it in place,
/// stopping at the first failure, whose error is returned unchanged; the
/// nodes after it are left as they were.
pub fn accept_each_mut<C, E, V, T: NodeMut<C, E, V>>(
    items: &mut Vec<T>,
    c: &mut C,
    v: &mut V,
) -> (r: Result<(), E>)
ensures
    accept_all_mut(old(items)@, *old(v), *old(c), final(items)@, *final(v), *final(c), r),
{
    let mut i: usize = 0;
    assert(old(items)@.skip(0) =~= old(items)@);
    assert(items@.take(0) + old(items)@ =~= old(items)@);
    while i < items.len()
        invariant
            0 <= i <= items.len(),
            items@.len() == old(items)@.len(),
            items@.skip(i as int) == old(items)@.skip(i as int),
            forall|s1: Seq<T>, v1: V, c1: C, r: Result<(), E>|
                #[trigger] accept_all_mut(old(items)@.skip(i as int), *v, *c, s1, v1, c1, r)
                    ==> accept_all_mut(old(items)@, *old(v), *old(c), items@.take(i as int) + s1, v1, c1, r),
        decreases items.len() - i,
    {
        let ghost vi = *v;
        let ghost ci = *c;
        let ghost si = items@;
        let r = NodeMut::accept(&mut items[i], c, v);
        proof {
            let rest = old(items)@.skip(i as int);
            assert(rest[0] == old(items)@[i as int]);
            assert(rest.drop_first() =~= old(items)@.skip(i + 1));
            assert(items@.skip(i + 1) =~= si.skip(i + 1));
            assert(items@.take(i as int) =~= si.take(i as int));
            if r is Ok {
                assert forall|s1: Seq<T>, v1: V, c1: C, r1: Result<(), E>|
                    #[trigger] accept_all_mut(old(items)@.skip(i + 1), *v, *c, s1, v1, c1, r1)
                        implies accept_all_mut(old(items)@, *old(v), *old(c), items@.take(i + 1) + s1, v1, c1, r1) by {
                    let full = seq![items@[i as int]] + s1;
                    assert(full[0] == items@[i as int]);
                    assert(full.drop_first() =~= s1);
                    assert(r->Ok_0 == ());
                    assert(r == Ok::<(), E>(()));
                    assert(rest[0].accept_mut_ok(vi, ci, (full[0], *v, *c, Ok(()))));
                    assert(accept_all_mut(rest.drop_first(), *v, *c, full.drop_first(), v1, c1, r1));
                    assert(s1.len() == rest.drop_first().len());
                    assert(accept_all_mut(rest, vi, ci, full, v1, c1, r1));
                    assert(si.take(i as int) + full =~= items@.take(i + 1) + s1);
                }
            }
            if r is Err {
                let out = items@.skip(i as int);
                assert(out[0] == items@[i as int]);
                assert(out.drop_first() =~= rest.drop_first());
                assert(accept_all_mut(rest, vi, ci, out, *v, *c, r));
                assert(si.take(i as int) + out =~= items@);
            }
        }
        match r {
            Ok(_) => {},
            Err(e) => {
                return Err(e);
            },
        }
        i = i + 1;
    }
    proof {
        assert(old(items)@.skip(i as int) =~= Seq::<T>::empty());
        assert(accept_all_mut(old(items)@.skip(i as int), *v, *c, Seq::<T>::empty(), *v, *c, Ok(())));
        assert(items@.take(i as int) + Seq::<T>::empty() =~= items@);
    }
    Ok(())
}

} // verus!
