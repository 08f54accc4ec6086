use vstd::prelude::*;

verus! {

/// The text that describes one of the two node traits: the read-only one and
/// the mutating one. Code generation turns this text into Rust items.
pub trait NodeTrait {
    spec fn spec_filename() -> Seq<char>;

    spec fn spec_trait_name() -> Seq<char>;

    spec fn spec_receiver() -> Seq<char>;

    spec fn spec_visitor() -> Seq<char>;

    spec fn spec_use_visitor() -> Seq<char>;

    /// The name of the file that holds the trait.
    fn filename() -> (r: String)
        ensures
            r@ == Self::spec_filename(),
    ;

    /// The name of the trait.
    fn trait_name() -> (r: String)
        ensures
            r@ == Self::spec_trait_name(),
    ;

    /// The receiver of `accept` and `recurse`.
    fn receiver() -> (r: String)
        ensures
            r@ == Self::spec_receiver(),
    ;

    /// The name of the visitor trait that drives the traversal.
    fn visitor() -> (r: String)
        ensures
            r@ == Self::spec_visitor(),
    ;

    /// The import that brings the visitor trait into scope.
    fn use_visitor() -> (r: String)
        ensures
            r@ == Self::spec_use_visitor(),
    ;
}

/// The read-only node trait, `Node`, whose methods take `&self`.
pub struct RefNodeTrait;

impl NodeTrait for RefNodeTrait {
    open spec fn spec_filename() -> Seq<char> {
        "node.rs"@
    }

    open spec fn spec_trait_name() -> Seq<char> {
        "Node"@
    }

    open spec fn spec_receiver() -> Seq<char> {
        "&self"@
    }

    open spec fn spec_visitor() -> Seq<char> {
        "Visitor"@
    }

    open spec fn spec_use_visitor() -> Seq<char> {
        "use super::visitor::Visitor;"@
    }

    fn filename() -> (r: String) {
        "node.rs".to_owned()
    }

    fn trait_name() -> (r: String) {
        "Node".to_owned()
    }

    fn receiver() -> (r: String) {
        "&self".to_owned()
    }

    fn visitor() -> (r: String) {
        "Visitor".to_owned()
    }

    fn use_visitor() -> (r: String) {
        "use super::visitor::Visitor;".to_owned()
    }
}

/// The mutating node trait, `NodeMut`, whose methods take `&mut self`.
pub struct MutNodeTrait;

impl NodeTrait for MutNodeTrait {
    open spec fn spec_filename() -> Seq<char> {
        "node_mut.rs"@
    }

    open spec fn spec_trait_name() -> Seq<char> {
        "NodeMut"@
    }

    open spec fn spec_receiver() -> Seq<char> {
        "&mut self"@
    }

    open spec fn spec_visitor() -> Seq<char> {
        "VisitorMut"@
    }

    open spec fn spec_use_visitor() -> Seq<char> {
        "use super::visitor_mut::VisitorMut;"@
    }

    fn filename() -> (r: String) {
        "node_mut.rs".to_owned()
    }

    fn trait_name() -> (r: String) {
        "NodeMut".to_owned()
    }

    fn receiver() -> (r: String) {
        "&mut self".to_owned()
    }

    fn visitor() -> (r: String) {
        "VisitorMut".to_owned()
    }

    fn use_visitor() -> (r: String) {
        "use super::visitor_mut::VisitorMut;".to_owned()
    }
}

} // verus!
