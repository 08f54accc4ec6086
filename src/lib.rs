//! A traversal protocol for trees: read-only and mutating descent through
//! the structural shapes that trees are built from (sequences, optional
//! children, key-ordered maps, shared and owned pointers, tuples), in a fixed
//! order that stops at the first failure.

pub mod key_order;
pub mod laws;
pub mod node;
pub mod node_impl;
pub mod node_mut;
pub mod node_trait_generator;
pub mod tany_sentinel;
