use aast_visitor::node::Node;
use aast_visitor::node_impl::{accept_each, accept_each_mut, accept_if_exclusive};
use aast_visitor::node_mut::NodeMut;
use std::rc::Rc;

/// A node kind that the visitor sees: accepting it counts a call, records
/// its id in the context, and fails when the visitor says so.
#[derive(Debug, Clone, PartialEq)]
struct Leaf(u32);

#[derive(Debug, Default, Clone, PartialEq)]
struct Recorder {
    calls: usize,
    fail_on: Option<u32>,
    bump: u32,
}

impl Node<Vec<u32>, String, Recorder> for Leaf {
    fn accept_step(&self, mut v: Recorder, mut c: Vec<u32>) -> (Recorder, Vec<u32>, Result<(), String>) {
        let r = Node::accept(self, &mut c, &mut v);
        (v, c, r)
    }

    fn recurse_step(&self, mut v: Recorder, mut c: Vec<u32>) -> (Recorder, Vec<u32>, Result<(), String>) {
        let r = Node::recurse(self, &mut c, &mut v);
        (v, c, r)
    }

    fn accept(&self, c: &mut Vec<u32>, v: &mut Recorder) -> Result<(), String> {
        v.calls += 1;
        c.push(self.0);
        if v.fail_on == Some(self.0) {
            return Err(format!("failed at {}", self.0));
        }
        Node::recurse(self, c, v)
    }

    fn recurse(&self, _c: &mut Vec<u32>, _v: &mut Recorder) -> Result<(), String> {
        Ok(())
    }
}

impl NodeMut<Vec<u32>, String, Recorder> for Leaf {
    fn accept_mut_ok(
        self,
        mut v: Recorder,
        mut c: Vec<u32>,
        out: (Self, Recorder, Vec<u32>, Result<(), String>),
    ) -> bool {
        let mut t = self;
        let r = NodeMut::accept(&mut t, &mut c, &mut v);
        (t, v, c, r) == out
    }

    fn recurse_mut_ok(
        self,
        mut v: Recorder,
        mut c: Vec<u32>,
        out: (Self, Recorder, Vec<u32>, Result<(), String>),
    ) -> bool {
        let mut t = self;
        let r = NodeMut::recurse(&mut t, &mut c, &mut v);
        (t, v, c, r) == out
    }

    fn accept(&mut self, c: &mut Vec<u32>, v: &mut Recorder) -> Result<(), String> {
        v.calls += 1;
        c.push(self.0);
        if v.fail_on == Some(self.0) {
            return Err(format!("failed at {}", self.0));
        }
        self.0 += v.bump;
        NodeMut::recurse(self, c, v)
    }

    fn recurse(&mut self, _c: &mut Vec<u32>, _v: &mut Recorder) -> Result<(), String> {
        Ok(())
    }
}

type Ctx = Vec<u32>;

fn recorder() -> Recorder {
    Recorder { calls: 0, fail_on: None, bump: 0 }
}

#[test]
fn leaf_recurse_changes_nothing() {
    let mut c: Ctx = vec![7];
    let mut v = recorder();
    let r: Result<(), String> = Node::<Ctx, String, Recorder>::recurse(&true, &mut c, &mut v);
    assert_eq!(r, Ok(()));
    let r: Result<(), String> = Node::<Ctx, String, Recorder>::recurse(&-3isize, &mut c, &mut v);
    assert_eq!(r, Ok(()));
    let s = String::from("text");
    let r: Result<(), String> = Node::<Ctx, String, Recorder>::accept(&s, &mut c, &mut v);
    assert_eq!(r, Ok(()));
    let mut b = false;
    let mut i: isize = 42;
    let mut t = String::from("kept");
    let r: Result<(), String> = NodeMut::<Ctx, String, Recorder>::recurse(&mut b, &mut c, &mut v);
    assert_eq!(r, Ok(()));
    let r: Result<(), String> = NodeMut::<Ctx, String, Recorder>::recurse(&mut i, &mut c, &mut v);
    assert_eq!(r, Ok(()));
    let r: Result<(), String> = NodeMut::<Ctx, String, Recorder>::accept(&mut t, &mut c, &mut v);
    assert_eq!(r, Ok(()));
    assert!(!b);
    assert_eq!(i, 42);
    assert_eq!(t, "kept");
    assert_eq!(c, vec![7]);
    assert_eq!(v.calls, 0);
}

#[test]
fn sequence_visits_in_index_order() {
    let s = vec![Leaf(10), Leaf(20), Leaf(30)];
    let mut c: Ctx = Vec::new();
    let mut v = recorder();
    assert_eq!(s.recurse(&mut c, &mut v), Ok(()));
    assert_eq!(c, vec![10, 20, 30]);
    assert_eq!(v.calls, 3);
}

#[test]
fn empty_sequence_makes_no_visit() {
    let s: Vec<Leaf> = Vec::new();
    let mut c: Ctx = Vec::new();
    let mut v = recorder();
    assert_eq!(s.accept(&mut c, &mut v), Ok(()));
    assert!(c.is_empty());
    assert_eq!(v.calls, 0);
}

#[test]
fn optional_absent_makes_no_visit() {
    let o: Option<Leaf> = None;
    let mut c: Ctx = Vec::new();
    let mut v = recorder();
    assert_eq!(o.recurse(&mut c, &mut v), Ok(()));
    assert!(c.is_empty());
    assert_eq!(v.calls, 0);
}

#[test]
fn optional_present_makes_one_visit() {
    let o = Some(Leaf(5));
    let mut c: Ctx = Vec::new();
    let mut v = recorder();
    assert_eq!(o.recurse(&mut c, &mut v), Ok(()));
    assert_eq!(c, vec![5]);
    assert_eq!(v.calls, 1);
}

#[test]
fn error_short_circuits_on_second_element() {
    let s = vec![Leaf(0), Leaf(1), Leaf(2)];
    let mut c: Ctx = Vec::new();
    let mut v = Recorder { calls: 0, fail_on: Some(1), bump: 0 };
    assert_eq!(s.recurse(&mut c, &mut v), Err(String::from("failed at 1")));
    assert_eq!(c, vec![0, 1]);
    assert_eq!(v.calls, 2);
}

#[test]
fn mutable_error_leaves_later_elements_unchanged() {
    let mut s = vec![Leaf(0), Leaf(1), Leaf(2)];
    let mut c: Ctx = Vec::new();
    let mut v = Recorder { calls: 0, fail_on: Some(1), bump: 100 };
    let r = NodeMut::recurse(&mut s, &mut c, &mut v);
    assert_eq!(r, Err(String::from("failed at 1")));
    assert_eq!(s, vec![Leaf(100), Leaf(1), Leaf(2)]);
    assert_eq!(c, vec![0, 1]);
}

#[test]
fn mutable_sequence_rewrites_each_element_in_order() {
    let mut s = vec![Leaf(1), Leaf(2), Leaf(3)];
    let mut c: Ctx = Vec::new();
    let mut v = Recorder { calls: 0, fail_on: None, bump: 10 };
    assert_eq!(NodeMut::accept(&mut s, &mut c, &mut v), Ok(()));
    assert_eq!(s, vec![Leaf(11), Leaf(12), Leaf(13)]);
    assert_eq!(c, vec![1, 2, 3]);
}

#[test]
fn shared_pointer_with_two_owners_is_left_unchanged() {
    let mut p = Rc::new(Leaf(4));
    let other = Rc::clone(&p);
    let mut c: Ctx = Vec::new();
    let mut v = Recorder { calls: 0, fail_on: Some(4), bump: 1 };
    assert_eq!(NodeMut::recurse(&mut p, &mut c, &mut v), Ok(()));
    assert_eq!(*p, Leaf(4));
    assert_eq!(*other, Leaf(4));
    assert!(c.is_empty());
    assert_eq!(v.calls, 0);
}

#[test]
fn shared_pointer_with_one_owner_is_rewritten() {
    let mut p = Rc::new(Leaf(4));
    let mut c: Ctx = Vec::new();
    let mut v = Recorder { calls: 0, fail_on: None, bump: 3 };
    assert_eq!(NodeMut::recurse(&mut p, &mut c, &mut v), Ok(()));
    assert_eq!(*p, Leaf(7));
    assert_eq!(c, vec![4]);
}

#[test]
fn shared_pointer_read_only_visits_referent() {
    let p = Rc::new(Leaf(9));
    let _other = Rc::clone(&p);
    let mut c: Ctx = Vec::new();
    let mut v = recorder();
    assert_eq!(p.recurse(&mut c, &mut v), Ok(()));
    assert_eq!(c, vec![9]);
}

#[test]
fn boxed_child_is_visited_and_rewritten() {
    let mut b = Box::new(Leaf(2));
    let mut c: Ctx = Vec::new();
    let mut v = Recorder { calls: 0, fail_on: None, bump: 5 };
    assert_eq!(b.recurse(&mut c, &mut v), Ok(()));
    assert_eq!(NodeMut::recurse(&mut b, &mut c, &mut v), Ok(()));
    assert_eq!(*b, Leaf(7));
    assert_eq!(c, vec![2, 2]);
}

#[test]
fn read_only_traversal_is_repeatable() {
    let tree = vec![Some(Leaf(1)), None, Some(Leaf(3))];
    let mut c1: Ctx = Vec::new();
    let mut v1 = recorder();
    let r1 = tree.recurse(&mut c1, &mut v1);
    let mut c2: Ctx = Vec::new();
    let mut v2 = recorder();
    let r2 = tree.recurse(&mut c2, &mut v2);
    assert_eq!(r1, r2);
    assert_eq!(c1, c2);
    assert_eq!(c1, vec![1, 3]);
    assert_eq!(v1.calls, v2.calls);
}

#[test]
fn pair_visits_first_then_second() {
    let p = (Leaf(1), Leaf(2));
    let mut c: Ctx = Vec::new();
    let mut v = recorder();
    assert_eq!(p.recurse(&mut c, &mut v), Ok(()));
    assert_eq!(c, vec![1, 2]);
    let s = vec![Leaf(1), Leaf(2)];
    let mut cs: Ctx = Vec::new();
    assert_eq!(s.recurse(&mut cs, &mut v), Ok(()));
    assert_eq!(c, cs);
}

#[test]
fn pair_failure_skips_second() {
    let p = (Leaf(1), Leaf(2));
    let mut c: Ctx = Vec::new();
    let mut v = Recorder { calls: 0, fail_on: Some(1), bump: 0 };
    assert_eq!(p.recurse(&mut c, &mut v), Err(String::from("failed at 1")));
    assert_eq!(c, vec![1]);
}

#[test]
fn triple_and_quadruple_visit_in_order() {
    let t = (Leaf(1), Leaf(2), Leaf(3));
    let q = (Leaf(4), Leaf(5), Leaf(6), Leaf(7));
    let mut c: Ctx = Vec::new();
    let mut v = recorder();
    assert_eq!(t.recurse(&mut c, &mut v), Ok(()));
    assert_eq!(q.accept(&mut c, &mut v), Ok(()));
    assert_eq!(c, vec![1, 2, 3, 4, 5, 6, 7]);
}

#[test]
fn mutable_tuples_rewrite_until_failure() {
    let mut t = (Leaf(1), Leaf(2), Leaf(3));
    let mut q = (Leaf(4), Leaf(5), Leaf(6), Leaf(7));
    let mut p = (Leaf(8), Leaf(9));
    let mut c: Ctx = Vec::new();
    let mut v = Recorder { calls: 0, fail_on: Some(6), bump: 10 };
    assert_eq!(NodeMut::recurse(&mut t, &mut c, &mut v), Ok(()));
    assert_eq!(t, (Leaf(11), Leaf(12), Leaf(13)));
    assert_eq!(NodeMut::recurse(&mut q, &mut c, &mut v), Err(String::from("failed at 6")));
    assert_eq!(q, (Leaf(14), Leaf(15), Leaf(6), Leaf(7)));
    assert_eq!(NodeMut::accept(&mut p, &mut c, &mut v), Ok(()));
    assert_eq!(p, (Leaf(18), Leaf(19)));
}

#[test]
fn nested_error_propagates_unchanged() {
    let tree = vec![vec![Leaf(1)], vec![Leaf(2), Leaf(3)], vec![Leaf(4)]];
    let mut c: Ctx = Vec::new();
    let mut v = Recorder { calls: 0, fail_on: Some(2), bump: 0 };
    assert_eq!(tree.recurse(&mut c, &mut v), Err(String::from("failed at 2")));
    assert_eq!(c, vec![1, 2]);
}

#[test]
fn map_visits_values_in_ascending_key_order() {
    let mut m: std::collections::BTreeMap<u64, Leaf> = std::collections::BTreeMap::new();
    m.insert(30, Leaf(3));
    m.insert(10, Leaf(1));
    m.insert(20, Leaf(2));
    let mut c: Ctx = Vec::new();
    let mut v = recorder();
    assert_eq!(m.recurse(&mut c, &mut v), Ok(()));
    assert_eq!(c, vec![1, 2, 3]);
    assert_eq!(v.calls, 3);
}

#[test]
fn map_failure_stops_at_that_key() {
    let mut m: std::collections::BTreeMap<i64, Leaf> = std::collections::BTreeMap::new();
    m.insert(-5, Leaf(7));
    m.insert(9, Leaf(8));
    m.insert(0, Leaf(6));
    let mut c: Ctx = Vec::new();
    let mut v = Recorder { calls: 0, fail_on: Some(6), bump: 0 };
    assert_eq!(m.accept(&mut c, &mut v), Err(String::from("failed at 6")));
    assert_eq!(c, vec![7, 6]);
}

#[test]
fn empty_map_makes_no_visit() {
    let m: std::collections::BTreeMap<u32, Leaf> = std::collections::BTreeMap::new();
    let mut c: Ctx = Vec::new();
    let mut v = recorder();
    assert_eq!(m.recurse(&mut c, &mut v), Ok(()));
    assert!(c.is_empty());
}

#[test]
fn mutable_map_rewrites_values_in_key_order() {
    let mut m: std::collections::BTreeMap<usize, Leaf> = std::collections::BTreeMap::new();
    m.insert(2, Leaf(20));
    m.insert(0, Leaf(0));
    m.insert(1, Leaf(10));
    let mut c: Ctx = Vec::new();
    let mut v = Recorder { calls: 0, fail_on: Some(20), bump: 1 };
    let r = NodeMut::recurse(&mut m, &mut c, &mut v);
    assert_eq!(r, Err(String::from("failed at 20")));
    assert_eq!(c, vec![0, 10, 20]);
    let keys: Vec<usize> = m.keys().copied().collect();
    assert_eq!(keys, vec![0, 1, 2]);
    assert_eq!(m[&0], Leaf(1));
    assert_eq!(m[&1], Leaf(11));
    assert_eq!(m[&2], Leaf(20));
}

#[test]
fn without_exclusive_access_nothing_is_visited() {
    let mut c: Ctx = Vec::new();
    let mut v = Recorder { calls: 0, fail_on: Some(1), bump: 1 };
    let r = accept_if_exclusive::<Ctx, String, Recorder, Leaf>(None, &mut c, &mut v);
    assert_eq!(r, Ok(()));
    assert!(c.is_empty());
    assert_eq!(v.calls, 0);
}

#[test]
fn with_exclusive_access_the_referent_is_rewritten() {
    let mut leaf = Leaf(1);
    let mut c: Ctx = Vec::new();
    let mut v = Recorder { calls: 0, fail_on: None, bump: 2 };
    assert_eq!(accept_if_exclusive(Some(&mut leaf), &mut c, &mut v), Ok(()));
    assert_eq!(leaf, Leaf(3));
    assert_eq!(c, vec![1]);
    let mut v = Recorder { calls: 0, fail_on: Some(3), bump: 2 };
    assert_eq!(accept_if_exclusive(Some(&mut leaf), &mut c, &mut v), Err(String::from("failed at 3")));
    assert_eq!(leaf, Leaf(3));
}

#[test]
fn accept_each_walks_a_vector() {
    let items = vec![Leaf(3), Leaf(2), Leaf(1)];
    let mut c: Ctx = Vec::new();
    let mut v = recorder();
    assert_eq!(accept_each(&items, &mut c, &mut v), Ok(()));
    assert_eq!(c, vec![3, 2, 1]);
    let mut items = items;
    let mut v = Recorder { calls: 0, fail_on: None, bump: 1 };
    assert_eq!(accept_each_mut(&mut items, &mut c, &mut v), Ok(()));
    assert_eq!(items, vec![Leaf(4), Leaf(3), Leaf(2)]);
}
