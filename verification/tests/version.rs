use std::cmp::Ordering;
use tiny_http::HTTPVersion;

#[test]
fn versions_order_by_major_then_minor() {
    assert!(HTTPVersion(1, 1) > HTTPVersion(1, 0));
    assert!(HTTPVersion(1, 0) > HTTPVersion(0, 9));
    assert!(HTTPVersion(2, 0) > HTTPVersion(1, 9));
}

#[test]
fn equal_versions_compare_equal() {
    assert!(HTTPVersion(1, 1) == HTTPVersion(1, 1));
    assert!(!(HTTPVersion(1, 1) < HTTPVersion(1, 1)));
    assert!(!(HTTPVersion(1, 1) > HTTPVersion(1, 1)));
}

#[test]
fn version_comparisons_run_both_ways() {
    assert!(HTTPVersion(0, 9) < HTTPVersion(1, 0));
    assert!(HTTPVersion(1, 9) < HTTPVersion(2, 0));
    assert!(HTTPVersion(1, 0) <= HTTPVersion(1, 1));
    assert!(HTTPVersion(1, 1) >= HTTPVersion(1, 1));
}

#[test]
fn version_formats_as_major_dot_minor() {
    assert_eq!(HTTPVersion(1, 1).to_string().as_str(), "1.1");
    assert_eq!(HTTPVersion(0, 9).to_string().as_str(), "0.9");
    assert_eq!(HTTPVersion(12, 0).to_string().as_str(), "12.0");
    assert_eq!(HTTPVersion(10, 25).to_string().as_str(), "10.25");
}

#[test]
fn version_partial_cmp_is_total() {
    assert_eq!(HTTPVersion(1, 1).partial_cmp(&HTTPVersion(1, 0)), Some(Ordering::Greater));
    assert_eq!(HTTPVersion(1, 0).partial_cmp(&HTTPVersion(1, 1)), Some(Ordering::Less));
    assert_eq!(HTTPVersion(2, 0).partial_cmp(&HTTPVersion(2, 0)), Some(Ordering::Equal));
}
