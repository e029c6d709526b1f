use tiny_http::Header;

#[test]
fn test_parse_header() {
    let header = Header::from_str("Content-Type: text/html").unwrap();

    assert!(header.field.equiv("content-type"));
    assert!(header.value.as_str() == "text/html");

    assert!(Header::from_str("hello world").is_none());
}

#[test]
fn parse_header_trims_field_and_value() {
    let header = Header::from_str(" X : y ").unwrap();
    assert!(header.field.equiv("x"));
    assert_eq!(header.value.as_str(), "y");
}

#[test]
fn parse_header_accepts_empty_value() {
    let header = Header::from_str("X-Empty:").unwrap();
    assert!(header.field.equiv("x-empty"));
    assert_eq!(header.value.as_str(), "");
}

#[test]
fn parse_header_splits_at_first_colon_only() {
    let header = Header::from_str("Host: example.com:8080").unwrap();
    assert!(header.field.equiv("host"));
    assert_eq!(header.value.as_str(), "example.com:8080");
}

#[test]
fn parse_header_rejects_non_ascii_field() {
    assert!(Header::from_str("Contenu-T\u{e9}: x").is_none());
}

#[test]
fn parse_header_keeps_non_ascii_value() {
    let header = Header::from_str("X-Name: caf\u{e9}").unwrap();
    assert!(header.field.equiv("x-name"));
    assert_eq!(header.value.as_str(), "caf\u{e9}");
}

#[test]
fn parse_header_trims_unicode_whitespace() {
    let header = Header::from_str("\u{a0}x: v\u{2028}").unwrap();
    assert!(header.field.equiv("x"));
    assert_eq!(header.value.as_str(), "v");

    let margins = Header::from_str("\u{c}Content-Length\u{b}: 3").unwrap();
    assert_eq!(margins.field.as_str(), "Content-Length");
    assert_eq!(margins.value.as_str(), "3");
}

#[test]
fn parse_header_accepts_empty_field_before_colon() {
    let header = Header::from_str(": x").unwrap();
    assert_eq!(header.field.as_str(), "");
    assert_eq!(header.value.as_str(), "x");
}

#[test]
fn header_formats_as_field_colon_space_value() {
    let header = Header::from_str("Content-Type: text/html").unwrap();
    assert_eq!(header.to_string().as_str(), "Content-Type: text/html");

    let spaced = Header::from_str(" X : y ").unwrap();
    assert_eq!(spaced.to_string().as_str(), "X: y");
}

#[test]
fn parse_header_without_any_colon_fails() {
    assert!(Header::from_str("").is_none());
    assert!(Header::from_str("   ").is_none());
    assert!(Header::from_str("Content-Type text/html").is_none());
}
