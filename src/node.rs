use vstd::prelude::*;

verus! {

/// The outcome of one traversal step, as a value: the visitor after the
/// step, the context after the step, and what the step returned.
pub type Step<V, C, E> = (V, C, Result<(), E>);

/// Read-only traversal of a value, on behalf of a visitor of type `V`,
/// threading one context of type `C` and failing with an error of type `E`.
///
/// `accept` is the entry point a visitor calls; `recurse` is the structural
/// descent into the children. Their effects are stated as spec functions so
/// that what a container does can be stated over what its children do.
pub trait Node<C, E, V>: Sized {
    /// What `accept` does, from visitor `v` and context `c`.
    spec fn accept_step(&self, v: V, c: C) -> Step<V, C, E>;

    /// What `recurse` does, from visitor `v` and context `c`.
    spec fn recurse_step(&self, v: V, c: C) -> Step<V, C, E>;

    fn accept(&self, c: &mut C, v: &mut V) -> (r: Result<(), E>)
        ensures
            (*final(v), *final(c), r) == self.accept_step(*old(v), *old(c)),
    ;

    fn recurse(&self, c: &mut C, v: &mut V) -> (r: Result<(), E>)
        ensures
            (*final(v), *final(c), r) == self.recurse_step(*old(v), *old(c)),
    ;
}

/// The step that changes nothing and succeeds.
pub open spec fn unchanged<V, C, E>(v: V, c: C) -> Step<V, C, E> {
    (v, c, Ok(()))
}

/// Accepting each node of `s` in index order, starting from `v` and `c`,
/// stopping at the first failure, whose error is returned unchanged.
pub open spec fn accept_all<C, E, V, T: Node<C, E, V>>(s: Seq<T>, v: V, c: C) -> Step<V, C, E>
    decreases s.len(),
{
    if s.len() == 0 {
        unchanged(v, c)
    } else {
        let (v1, c1, r1) = s[0].accept_step(v, c);
        match r1 {
            Ok(_) => accept_all(s.drop_first(), v1, c1),
            Err(e) => (v1, c1, Err(e)),
        }
    }
}

/// The step `first`, followed by accepting `next` if `first` succeeded;
/// a failure of `first` is returned unchanged and `next` is not visited.
pub open spec fn then_accept<C, E, V, T: Node<C, E, V>>(first: Step<V, C, E>, next: T) -> Step<
    V,
    C,
    E,
> {
    match first.2 {
        Ok(_) => next.accept_step(first.0, first.1),
        Err(e) => (first.0, first.1, Err(e)),
    }
}

} // verus!
