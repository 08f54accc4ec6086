use vstd::prelude::*;

verus! {

/// Marker standing in for an unresolved type in annotated trees.
#[derive(Clone, Copy, Debug, PartialEq, Eq)]
pub struct TanySentinel;

} // verus!
