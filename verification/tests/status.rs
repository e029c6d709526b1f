use tiny_http::StatusCode;

#[test]
fn reason_phrases_match_the_table() {
    let table: &[(usize, &str)] = &[
        (100, "Continue"),
        (101, "Switching Protocols"),
        (102, "Processing"),
        (118, "Connection timed out"),
        (200, "OK"),
        (201, "Created"),
        (202, "Accepted"),
        (203, "Non-Authoritative Information"),
        (204, "No Content"),
        (205, "Reset Content"),
        (206, "Partial Content"),
        (207, "Multi-Status"),
        (210, "Content Different"),
        (300, "Multiple Choices"),
        (301, "Moved Permanently"),
        (302, "Found"),
        (303, "See Other"),
        (304, "Not Modified"),
        (305, "Use Proxy"),
        (307, "Temporary Redirect"),
        (400, "Bad Request"),
        (401, "Unauthorized"),
        (402, "Payment Required"),
        (403, "Forbidden"),
        (404, "Not Found"),
        (405, "Method Not Allowed"),
        (406, "Not Acceptable"),
        (407, "Proxy Authentication Required"),
        (408, "Request Time-out"),
        (409, "Conflict"),
        (410, "Gone"),
        (411, "Length Required"),
        (412, "Precondition Failed"),
        (413, "Request Entity Too Large"),
        (414, "Reques-URI Too Large"),
        (415, "Unsupported Media Type"),
        (416, "Request range not satisfiable"),
        (417, "Expectation Failed"),
        (500, "Internal Server Error"),
        (501, "Not Implemented"),
        (502, "Bad Gateway"),
        (503, "Service Unavailable"),
        (504, "Gateway Time-out"),
        (505, "HTTP Version not supported"),
    ];
    for &(code, phrase) in table {
        assert_eq!(StatusCode(code).get_default_reason_phrase(), phrase);
    }
}

#[test]
fn undocumented_codes_map_to_unknown() {
    for code in [0usize, 99, 103, 119, 208, 306, 418, 499, 506, 600, usize::MAX] {
        assert_eq!(StatusCode(code).get_default_reason_phrase(), "Unknown");
    }
}

#[test]
fn status_code_exposes_its_number() {
    assert_eq!(StatusCode(404).as_uint(), 404);
}

#[test]
fn status_code_is_equivalent_to_its_bare_integer() {
    assert!(StatusCode(200).equiv(200));
    assert!(!StatusCode(200).equiv(201));
}

#[test]
fn status_codes_order_as_their_integers() {
    assert!(StatusCode(200) < StatusCode(404));
    assert!(StatusCode(500) > StatusCode(404));
    assert!(StatusCode(301) == StatusCode(301));
}
