use lilv::collection::{Collection, Nodes};
use lilv::node::Node;

fn ints(v: &[i32]) -> Nodes {
    Collection::new(v.iter().map(|i| Node::new_int(*i)).collect())
}

#[test]
fn empty_collection_yields_nothing() {
    let c: Nodes = Collection::new_borrowed(Vec::new());
    assert_eq!(c.size(), 0);
    assert!(c.is_end(c.begin()));
    assert!(c.iter().next().is_none());
    assert!(!c.needs_release());
}

#[test]
fn cursor_walks_in_order() {
    let c = ints(&[1, 2, 3]);
    let mut cur = c.begin();
    let mut seen = Vec::new();
    while !c.is_end(cur) {
        seen.push(c.get(cur).as_int().unwrap());
        cur = c.next(cur);
    }
    assert_eq!(seen, vec![1, 2, 3]);
    let mut it = c.iter();
    assert_eq!(it.next().unwrap().as_int(), Some(1));
    assert_eq!(it.next().unwrap().as_int(), Some(2));
    assert_eq!(it.next().unwrap().as_int(), Some(3));
    assert!(it.next().is_none());
    assert!(it.next().is_none());
    assert!(c.needs_release());
}

#[test]
fn contains_is_by_value() {
    let c = ints(&[1, 2]);
    assert!(c.contains(&Node::new_int(2)));
    assert!(!c.contains(&Node::new_int(5)));
    assert!(!c.contains(&Node::new_string("2")));
}

#[test]
fn merge_is_union() {
    let a = ints(&[1, 2]);
    let b = ints(&[2, 3]);
    let m = a.merge(&b);
    assert_eq!(m.count(), 3);
    assert!(m.needs_release());
    let got: Vec<i32> = (0..m.count()).map(|i| m.get(i).as_int().unwrap()).collect();
    assert_eq!(got, vec![1, 2, 3]);
    let e: Nodes = Collection::new(Vec::new());
    assert_eq!(e.merge(&e).count(), 0);
}
