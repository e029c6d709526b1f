use tiny_http::HeaderField;
use tiny_http::Method;

#[test]
fn methods_parse_to_equal_tokens_regardless_of_case() {
    let upper = Method::from_str("GET").unwrap();
    let lower = Method::from_str("get").unwrap();
    assert!(upper == lower);
    assert!(!(upper == Method::from_str("PUT").unwrap()));
}

#[test]
fn method_with_byte_past_ascii_fails_to_parse() {
    assert!(Method::from_str("G\u{c9}T").is_none());
    assert!(Method::from_str("\u{80}").is_none());
}

#[test]
fn method_keeps_its_text() {
    let m = Method::from_str("POST").unwrap();
    assert_eq!(m.as_str(), "POST");
    assert_eq!(m.into_string().as_str(), "POST");
}

#[test]
fn method_does_not_trim() {
    let m = Method::from_str(" GET ").unwrap();
    assert_eq!(m.as_str(), " GET ");
}

#[test]
fn method_equiv_ignores_ascii_case_only() {
    let m = Method::from_str("Get").unwrap();
    assert!(m.equiv("GET"));
    assert!(m.equiv("get"));
    assert!(!m.equiv("GETX"));
    assert!(!m.equiv("PUT"));
}

#[test]
fn header_field_trims_before_validating() {
    let f = HeaderField::from_str("  Content-Type ").unwrap();
    assert_eq!(f.as_str(), "Content-Type");
    assert!(f.equiv("CONTENT-TYPE"));
}

#[test]
fn header_fields_compare_case_insensitively() {
    let a = HeaderField::from_str("Content-Type").unwrap();
    let b = HeaderField::from_str("content-type").unwrap();
    let c = HeaderField::from_str("Content-Length").unwrap();
    assert!(a == b);
    assert!(!(a == c));
}

#[test]
fn header_field_trims_every_whitespace_kind() {
    let vertical_tab = HeaderField::from_str("\u{b}x").unwrap();
    assert_eq!(vertical_tab.as_str(), "x");
    let form_feed = HeaderField::from_str("\u{c}Allow\u{85}").unwrap();
    assert_eq!(form_feed.as_str(), "Allow");
    let no_break_space = HeaderField::from_str("\u{a0}Host\u{a0}").unwrap();
    assert_eq!(no_break_space.as_str(), "Host");
}

#[test]
fn header_field_round_trip_returns_the_trimmed_input() {
    let f = HeaderField::from_str(" \u{2003}Name\u{3000} ").unwrap();
    assert_eq!(f.into_string().as_str(), "Name");
}

#[test]
fn header_field_keeps_interior_whitespace_and_rejects_interior_non_ascii() {
    let f = HeaderField::from_str("a b").unwrap();
    assert_eq!(f.as_str(), "a b");
    assert!(HeaderField::from_str("a\u{a0}b").is_none());
}

#[test]
fn token_trimming_agrees_with_std_trim() {
    // Every code point through the last White_Space character and beyond:
    // the library strips exactly what `str::trim` strips.
    for u in 0..=0x11000u32 {
        let c = match char::from_u32(u) {
            Some(c) => c,
            None => continue,
        };
        let text = format!("{}x{}", c, c);
        let parsed = HeaderField::from_str(&text);
        let expected = text.trim();
        if expected.is_ascii() {
            assert_eq!(parsed.unwrap().as_str(), expected);
        } else {
            assert!(parsed.is_none());
        }
    }
}

#[test]
fn header_field_with_byte_past_ascii_fails_to_parse() {
    assert!(HeaderField::from_str("na\u{ef}ve").is_none());
}

#[test]
fn header_field_keeps_its_text() {
    let f = HeaderField::from_str("Allow").unwrap();
    assert_eq!(f.as_str(), "Allow");
    assert_eq!(f.into_string().as_str(), "Allow");
}
