use lilv::collection::{Collection, Nodes};
use lilv::node::{Node, NodeValue};

#[test]
fn test_new_node() {
    assert!(Node::new_bool(true).is_bool());
    assert!(Node::new_float_bits(0.1f32.to_bits()).is_float());
    assert!(Node::new_int(1).is_int());
    assert!(Node::new_string("string").is_string());
}

#[test]
fn test_null_nodes() {
    let nodes: Nodes = Collection::new(Vec::new());
    assert_eq!(nodes.count(), 0);
    let mut it = nodes.iter();
    if let Some(n) = it.next() {
        panic!("Should not have any nodes but found {:?}", n.text());
    }
}

#[test]
fn literal_round_trips() {
    assert_eq!(Node::new_uri("http://example.org/a").as_uri(), Some("http://example.org/a"));
    assert_eq!(Node::new_blank("b0").as_blank(), Some("b0"));
    assert_eq!(Node::new_string("hello").as_str(), Some("hello"));
    assert_eq!(Node::new_int(-7).as_int(), Some(-7));
    assert_eq!(Node::new_int(i32::MAX).as_int(), Some(i32::MAX));
    assert_eq!(Node::new_bool(false).as_bool(), Some(false));
    let bits = Node::new_float_bits(0.25f32.to_bits()).as_float_bits().unwrap();
    assert_eq!(f32::from_bits(bits), 0.25f32);
}

#[test]
fn duplicate_is_equal_and_owned() {
    let nodes = vec![
        Node::new_uri("http://example.org/a"),
        Node::borrowed(NodeValue::Blank("b1".to_string())),
        Node::new_string(""),
        Node::new_int(3),
        Node::new_float_bits(1.5f32.to_bits()),
        Node::new_bool(true),
    ];
    for n in nodes.iter() {
        let d = n.duplicate();
        assert!(d == *n);
        assert!(d.needs_release());
    }
    assert!(!nodes[1].needs_release());
}

#[test]
fn equality_is_by_value() {
    assert!(Node::new_int(1) != Node::new_int(2));
    assert!(Node::new_string("x") != Node::new_uri("x"));
    assert!(Node::new_uri("x") == Node::borrowed(NodeValue::Uri("x".to_string())));
}

#[test]
fn mismatched_accessor_is_absent() {
    let uri = Node::new_uri("http://example.org/a");
    assert_eq!(uri.as_float_bits(), None);
    assert_eq!(uri.as_int(), None);
    assert_eq!(uri.as_bool(), None);
    assert_eq!(uri.as_str(), None);
    assert_eq!(uri.as_blank(), None);
    assert!(!uri.is_literal());
    let s = Node::new_string("1");
    assert_eq!(s.as_int(), None);
    assert_eq!(s.as_uri(), None);
    assert!(s.is_literal());
    assert_eq!(Node::new_int(1).as_float_bits(), None);
    assert_eq!(Node::new_float_bits(0).as_int(), None);
}

#[test]
fn text_of_kinds() {
    assert_eq!(Node::new_uri("u").text(), Some("u"));
    assert_eq!(Node::new_blank("b").text(), Some("b"));
    assert_eq!(Node::new_string("s").text(), Some("s"));
    assert_eq!(Node::new_int(4).text(), None);
}
