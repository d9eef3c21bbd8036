use lilv::feature::{check_urid_feature, str_eq, UridFeatureError, UridMap, URID_MAP_URI};

#[test]
fn urid_maps_to_same_value_for_same_uri() {
    let mut m = UridMap::new();
    let a = m.map(b"a");
    let b = m.map(b"a");
    assert_eq!(a, b);
}

#[test]
fn urid_map_maps_to_unique_values() {
    let mut m = UridMap::new();
    let a = m.map(b"a");
    let b = m.map(b"b");
    assert_ne!(a, b);
}

#[test]
fn urid_ids_count_from_one() {
    let mut m = UridMap::new();
    assert_eq!(m.map(b"http://example.org/x"), 1);
    assert_eq!(m.map(b"http://example.org/y"), 2);
    assert_eq!(m.map(b"http://example.org/x"), 1);
    assert_eq!(m.map(b""), 3);
    assert_eq!(m.len(), 3);
}

#[test]
fn urid_map_from_non_urid_map_feature_returns_error() {
    assert_eq!(
        check_urid_feature("bad_uri", false).err(),
        Some(UridFeatureError::FeatureIsNotUridMap)
    );
}

#[test]
fn urid_map_from_feature_with_null_ptr_returns_error() {
    assert_eq!(
        check_urid_feature(URID_MAP_URI, true).err(),
        Some(UridFeatureError::FeatureDataIsNull)
    );
}

#[test]
fn urid_feature_accepted() {
    assert_eq!(check_urid_feature("http://lv2plug.in/ns/ext/urid#map", false), Ok(()));
    assert_eq!(
        check_urid_feature("http://lv2plug.in/ns/ext/urid#unmap", true),
        Err(UridFeatureError::FeatureIsNotUridMap)
    );
}

#[test]
fn string_equality() {
    assert!(str_eq("abc", "abc"));
    assert!(!str_eq("abc", "abd"));
    assert!(!str_eq("ab", "abc"));
    assert!(str_eq("", ""));
}
