use lilv::collection::{Collection, Nodes};
use lilv::node::Node;
use lilv::plugin::preset_label;
use lilv::port::{is_a, num_ports_of_class};
use lilv::ui::UISupportQuality;
use lilv::world::{find_pattern_is_valid, get_pattern_is_valid, parsed_file_count};

fn uris(v: &[&str]) -> Nodes {
    Collection::new(v.iter().map(|u| Node::new_uri(u)).collect())
}

#[test]
fn preset_label_prefers_label() {
    let preset = Node::new_uri("http://example.org/preset#warm");
    let labels: Nodes = Collection::new(vec![Node::new_string("Warm")]);
    assert_eq!(preset_label(&labels, &preset), Some("Warm"));
    let mixed: Nodes = Collection::new(vec![Node::new_int(1), Node::new_string("Second")]);
    assert_eq!(preset_label(&mixed, &preset), Some("Second"));
}

#[test]
fn preset_label_falls_back_to_uri() {
    let preset = Node::new_uri("http://example.org/preset#cold");
    let none: Nodes = Collection::new(Vec::new());
    assert_eq!(preset_label(&none, &preset), Some("http://example.org/preset#cold"));
    assert_eq!(preset_label(&none, &Node::new_blank("b")), None);
}

#[test]
fn ports_of_class() {
    let audio = Node::new_uri("lv2:AudioPort");
    let input = Node::new_uri("lv2:InputPort");
    let output = Node::new_uri("lv2:OutputPort");
    let ports = vec![
        uris(&["lv2:AudioPort", "lv2:InputPort"]),
        uris(&["lv2:AudioPort", "lv2:OutputPort"]),
        uris(&["lv2:ControlPort", "lv2:InputPort"]),
    ];
    assert!(is_a(&ports[0], &audio));
    assert!(!is_a(&ports[2], &audio));
    assert_eq!(num_ports_of_class(&ports, &vec![audio.duplicate()]), 2);
    assert_eq!(num_ports_of_class(&ports, &vec![audio.duplicate(), input.duplicate()]), 1);
    assert_eq!(num_ports_of_class(&ports, &vec![input, output]), 0);
    assert_eq!(num_ports_of_class(&ports, &vec![]), 3);
    assert_eq!(num_ports_of_class(&vec![], &vec![audio]), 0);
}

#[test]
fn query_patterns() {
    assert!(find_pattern_is_valid(true, false));
    assert!(find_pattern_is_valid(false, true));
    assert!(find_pattern_is_valid(true, true));
    assert!(!find_pattern_is_valid(false, false));
    assert!(get_pattern_is_valid(true, true, false));
    assert!(get_pattern_is_valid(false, true, true));
    assert!(!get_pattern_is_valid(true, true, true));
    assert!(!get_pattern_is_valid(false, false, true));
}

#[test]
fn load_resource_status() {
    assert_eq!(parsed_file_count(-1), None);
    assert_eq!(parsed_file_count(0), Some(0));
    assert_eq!(parsed_file_count(3), Some(3));
}

#[test]
fn ui_support_quality() {
    assert_eq!(UISupportQuality::of_query(5, true, false), UISupportQuality(0));
    assert_eq!(UISupportQuality::of_query(5, true, true), UISupportQuality(5));
    assert_eq!(UISupportQuality::of_query(2, false, false), UISupportQuality(2));
    assert!(!UISupportQuality(0).is_supported());
    assert!(UISupportQuality(1) > UISupportQuality(0));
}
