use vstd::prelude::*;

verus! {

/// The outcome of one mutating traversal step: the node after the step,
/// the visitor after the step, the context after the step, and what the
/// step returned.
pub type StepMut<T, V, C, E> = (T, V, C, Result<(), E>);

/// Mutating traversal of a value held exclusively, on behalf of a visitor of
/// type `V`, threading one context of type `C` and failing with an error of
/// type `E`.
///
/// The effect of a step is stated as a relation rather than a function: a
/// node reached through shared ownership is rewritten only when exclusive
/// access can be had at the moment of descent, which the value alone does
/// not decide.
pub trait NodeMut<C, E, V>: Sized {
    /// Whether `out` is a possible outcome of `accept` on `self`, from
    /// visitor `v` and context `c`.
    spec fn accept_mut_ok(self, v: V, c: C, out: StepMut<Self, V, C, E>) -> bool;

    /// Whether `out` is a possible outcome of `recurse` on `self`, from
    /// visitor `v` and context `c`.
    spec fn recurse_mut_ok(self, v: V, c: C, out: StepMut<Self, V, C, E>) -> bool;

    fn accept(&mut self, c: &mut C, v: &mut V) -> (r: Result<(), E>)
        ensures
            old(self).accept_mut_ok(*old(v), *old(c), (*final(self), *final(v), *final(c), r)),
    ;

    fn recurse(&mut self, c: &mut C, v: &mut V) -> (r: Result<(), E>)
        ensures
            old(self).recurse_mut_ok(*old(v), *old(c), (*final(self), *final(v), *final(c), r)),
    ;
}

/// The outcome that changes nothing and succeeds.
pub open spec fn unchanged_mut<T, C, E, V>(t: T, v: V, c: C, out: StepMut<T, V, C, E>) -> bool {
    out == (t, v, c, Ok::<(), E>(()))
}

/// Whether `(a1, v1, c1, r)` followed by `rest` is a possible outcome of
/// accepting `a0` from `v0` and `c0` and then what comes after it: either
/// accepting `a0` fails, with `a1` its rewritten value, and what comes after
/// is left as it was (`rest_unchanged`); or it succeeds, and `rest` holds of
/// the visitor and context it leaves.
pub open spec fn first_then<C, E, V, T: NodeMut<C, E, V>>(
    a0: T,
    a1: T,
    v0: V,
    c0: C,
    v1: V,
    c1: C,
    r: Result<(), E>,
    rest_unchanged: bool,
    rest: spec_fn(V, C) -> bool,
) -> bool {
    ||| {
        &&& r is Err
        &&& a0.accept_mut_ok(v0, c0, (a1, v1, c1, r))
        &&& rest_unchanged
    }
    ||| exists|vm: V, cm: C|
        {
            &&& #[trigger] a0.accept_mut_ok(v0, c0, (a1, vm, cm, Ok(())))
            &&& rest(vm, cm)
        }
}

/// Whether `(s1, v1, c1, r)` is a possible outcome of accepting each node of
/// `s0` in index order from `v0` and `c0`: each node is rewritten in place,
/// the walk stops at the first failure, whose error is returned unchanged,
/// and the nodes after it are left as they were.
pub open spec fn accept_all_mut<C, E, V, T: NodeMut<C, E, V>>(
    s0: Seq<T>,
    v0: V,
    c0: C,
    s1: Seq<T>,
    v1: V,
    c1: C,
    r: Result<(), E>,
) -> bool
    decreases s0.len(),
{
    if s0.len() == 0 {
        s1 == s0 && v1 == v0 && c1 == c0 && r == Ok::<(), E>(())
    } else {
        &&& s1.len() == s0.len()
        &&& first_then(
            s0[0],
            s1[0],
            v0,
            c0,
            v1,
            c1,
            r,
            s1.drop_first() == s0.drop_first(),
            |vm: V, cm: C| accept_all_mut(s0.drop_first(), vm, cm, s1.drop_first(), v1, c1, r),
        )
    }
}

} // verus!
