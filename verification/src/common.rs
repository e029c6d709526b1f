//! HTTP value types: status code, header field, method token, header,
//! protocol version, with their parsing and comparison rules.

use vstd::prelude::*;
use vstd::std_specs::cmp::PartialEqSpec;
use vstd::std_specs::cmp::PartialOrdSpec;
use vstd::string::StringExecFns;

verus! {

/// The whitespace characters stripped from both ends of a header field
/// candidate and of a header value: the Unicode White_Space set, exactly
/// what `str::trim` strips.
pub open spec fn is_space(c: char) -> bool {
    let u = c as u32;
    ||| u == 0x9
    ||| u == 0xA
    ||| u == 0xB
    ||| u == 0xC
    ||| u == 0xD
    ||| u == 0x20
    ||| u == 0x85
    ||| u == 0xA0
    ||| u == 0x1680
    ||| (0x2000 <= u && u <= 0x200A)
    ||| u == 0x2028
    ||| u == 0x2029
    ||| u == 0x202F
    ||| u == 0x205F
    ||| u == 0x3000
}

/// `s` without its leading whitespace.
pub open spec fn trim_front(s: Seq<char>) -> Seq<char>
    decreases s.len(),
{
    if s.len() > 0 && is_space(s[0]) {
        trim_front(s.drop_first())
    } else {
        s
    }
}

/// `s` without its trailing whitespace.
pub open spec fn trim_back(s: Seq<char>) -> Seq<char>
    decreases s.len(),
{
    if s.len() > 0 && is_space(s[s.len() - 1]) {
        trim_back(s.drop_last())
    } else {
        s
    }
}

/// `s` without surrounding whitespace.
pub open spec fn trimmed(s: Seq<char>) -> Seq<char> {
    trim_back(trim_front(s))
}

/// A character within the ASCII range.
pub open spec fn is_ascii_char(c: char) -> bool {
    (c as u32) < 128
}

/// Text made of ASCII characters only; what a token may hold.
pub open spec fn is_ascii_text(s: Seq<char>) -> bool {
    forall|i: int| 0 <= i < s.len() ==> is_ascii_char(#[trigger] s[i])
}

/// The code point of `c` with an ASCII upper-case letter folded to its
/// lower-case counterpart; all other characters are left alone.
pub open spec fn fold_char(c: char) -> u32 {
    if 65 <= c as u32 <= 90 {
        (c as u32 + 32) as u32
    } else {
        c as u32
    }
}

/// Character-wise equality that ignores ASCII case only.
pub open spec fn eq_ignore_ascii_case(a: Seq<char>, b: Seq<char>) -> bool {
    a.len() == b.len() && forall|i: int|
        0 <= i < a.len() ==> fold_char(#[trigger] a[i]) == fold_char(b[i])
}

/// Ignoring ASCII case compares like an equality: the relation behind the
/// `==` of `HeaderField` and `Method` is reflexive, symmetric and
/// transitive.
pub proof fn lemma_eq_ignore_ascii_case_equivalence(a: Seq<char>, b: Seq<char>, c: Seq<char>)
    ensures
        eq_ignore_ascii_case(a, a),
        eq_ignore_ascii_case(a, b) ==> eq_ignore_ascii_case(b, a),
        eq_ignore_ascii_case(a, b) && eq_ignore_ascii_case(b, c) ==> eq_ignore_ascii_case(a, c),
{
}

/// Index of the first occurrence of `c` in `s`, or -1 when `c` does not
/// occur.
pub open spec fn find_char(s: Seq<char>, c: char) -> int
    decreases s.len(),
{
    if s.len() == 0 {
        -1
    } else if s[0] == c {
        0
    } else {
        let rest = find_char(s.drop_first(), c);
        if rest < 0 {
            -1
        } else {
            1 + rest
        }
    }
}

proof fn lemma_find_char_found(s: Seq<char>, c: char, i: int)
    requires
        0 <= i < s.len(),
        s[i] == c,
        forall|k: int| 0 <= k < i ==> s[k] != c,
    ensures
        find_char(s, c) == i,
    decreases s.len(),
{
    if i > 0 {
        assert(s.drop_first()[i - 1] == c);
        assert(forall|k: int| 0 <= k < i - 1 ==> #[trigger] s.drop_first()[k] != c);
        lemma_find_char_found(s.drop_first(), c, i - 1);
    }
}

proof fn lemma_find_char_none(s: Seq<char>, c: char)
    requires
        forall|k: int| 0 <= k < s.len() ==> s[k] != c,
    ensures
        find_char(s, c) == -1,
    decreases s.len(),
{
    if s.len() > 0 {
        assert(forall|k: int| 0 <= k < s.len() - 1 ==> #[trigger] s.drop_first()[k] != c);
        lemma_find_char_none(s.drop_first(), c);
    }
}

/// Whether `c` is one of the whitespace characters trimmed from tokens and
/// values.
fn char_is_space(c: char) -> (r: bool)
    ensures
        r == is_space(c),
{
    let u = c as u32;
    u == 0x9 || u == 0xA || u == 0xB || u == 0xC || u == 0xD || u == 0x20 || u == 0x85
        || u == 0xA0 || u == 0x1680 || (0x2000 <= u && u <= 0x200A) || u == 0x2028 || u == 0x2029
        || u == 0x202F || u == 0x205F || u == 0x3000
}

/// Strips surrounding whitespace from `s`.
fn trim_str<'a>(s: &'a str) -> (r: &'a str)
    ensures
        r@ == trimmed(s@),
{
    let len = s.unicode_len();
    let ghost view = s@;
    proof {
        assert(view.subrange(0, len as int) =~= view);
    }
    let mut start: usize = 0;
    while start < len && char_is_space(s.get_char(start))
        invariant
            0 <= start <= len,
            len == view.len(),
            s@ == view,
            trim_front(view) == trim_front(view.subrange(start as int, len as int)),
        decreases len - start,
    {
        proof {
            let tail = view.subrange(start as int, len as int);
            assert(tail.drop_first() =~= view.subrange(start as int + 1, len as int));
        }
        start = start + 1;
    }
    proof {
        let tail = view.subrange(start as int, len as int);
        if start < len {
            assert(trim_front(tail) == tail);
        } else {
            assert(tail =~= Seq::<char>::empty());
        }
        assert(trim_front(view) == view.subrange(start as int, len as int));
    }
    let mut end: usize = len;
    while end > start && char_is_space(s.get_char(end - 1))
        invariant
            start <= end <= len,
            len == view.len(),
            s@ == view,
            trim_front(view) == view.subrange(start as int, len as int),
            trim_back(view.subrange(start as int, len as int)) == trim_back(
                view.subrange(start as int, end as int),
            ),
        decreases end,
    {
        proof {
            let part = view.subrange(start as int, end as int);
            assert(part.drop_last() =~= view.subrange(start as int, end as int - 1));
        }
        end = end - 1;
    }
    proof {
        let part = view.subrange(start as int, end as int);
        if end > start {
            assert(trim_back(part) == part);
        } else {
            assert(part =~= Seq::<char>::empty());
        }
        assert(trimmed(view) == view.subrange(start as int, end as int));
    }
    s.substring_char(start, end)
}

/// Position of the first occurrence of `c` in `s`, if any.
fn find_first(s: &str, c: char) -> (r: Option<usize>)
    ensures
        match r {
            Some(i) => find_char(s@, c) == i && i < s@.len() && s@[i as int] == c,
            None => find_char(s@, c) == -1,
        },
{
    let len = s.unicode_len();
    let mut i: usize = 0;
    while i < len
        invariant
            0 <= i <= len,
            len == s@.len(),
            forall|k: int| 0 <= k < i ==> s@[k] != c,
        decreases len - i,
    {
        if s.get_char(i) == c {
            proof {
                lemma_find_char_found(s@, c, i as int);
            }
            return Some(i);
        }
        i = i + 1;
    }
    proof {
        lemma_find_char_none(s@, c);
    }
    None
}

/// Whether every character of `s` lies in the ASCII range.
fn str_is_ascii_text(s: &str) -> (r: bool)
    ensures
        r == is_ascii_text(s@),
{
    let len = s.unicode_len();
    let mut i: usize = 0;
    while i < len
        invariant
            0 <= i <= len,
            len == s@.len(),
            forall|k: int| 0 <= k < i ==> is_ascii_char(#[trigger] s@[k]),
        decreases len - i,
    {
        if s.get_char(i) as u32 >= 128 {
            return false;
        }
        i = i + 1;
    }
    true
}

/// The ASCII-case-folded code point of `c`.
fn fold_char_exec(c: char) -> (r: u32)
    ensures
        r == fold_char(c),
{
    let u = c as u32;
    if 65 <= u && u <= 90 {
        u + 32
    } else {
        u
    }
}

/// Compares two pieces of text character by character, ignoring ASCII case.
fn str_eq_ignore_ascii_case(a: &str, b: &str) -> (r: bool)
    ensures
        r == eq_ignore_ascii_case(a@, b@),
{
    let a_len = a.unicode_len();
    let b_len = b.unicode_len();
    if a_len != b_len {
        return false;
    }
    let mut i: usize = 0;
    while i < a_len
        invariant
            0 <= i <= a_len,
            a_len == a@.len(),
            a_len == b@.len(),
            forall|k: int| 0 <= k < i ==> fold_char(#[trigger] a@[k]) == fold_char(b@[k]),
        decreases a_len - i,
    {
        if fold_char_exec(a.get_char(i)) != fold_char_exec(b.get_char(i)) {
            return false;
        }
        i = i + 1;
    }
    true
}

/// Field of a header (eg. `Content-Type`, `Content-Length`, etc.)
///
/// Comparison between two `HeaderField`s ignores case.
#[derive(Clone)]
pub struct HeaderField {
    text: String,
}

impl View for HeaderField {
    type V = Seq<char>;

    closed spec fn view(&self) -> Seq<char> {
        self.text@
    }
}

impl HeaderField {
    /// Every character of a constructed token lies in the ASCII range.
    pub open spec fn wf(&self) -> bool {
        is_ascii_text(self@)
    }

    /// Builds a field token from `s` trimmed of surrounding whitespace;
    /// yields no value when any character falls outside the ASCII range.
    pub fn from_str(s: &str) -> (r: Option<HeaderField>)
        ensures
            r is Some <==> is_ascii_text(trimmed(s@)),
            match r {
                Some(f) => f@ == trimmed(s@) && f.wf(),
                None => true,
            },
    {
        let t = trim_str(s);
        if str_is_ascii_text(t) {
            Some(HeaderField { text: t.to_owned() })
        } else {
            None
        }
    }

    /// The token's text.
    pub fn as_str(&self) -> (r: &str)
        ensures
            r@ == self@,
    {
        self.text.as_str()
    }

    /// Gives the token's text away.
    pub fn into_string(self) -> (r: String)
        ensures
            r@ == self@,
    {
        self.text
    }

    /// Whether the token names the same field as the plain text `other`,
    /// ignoring ASCII case.
    pub fn equiv(&self, other: &str) -> (r: bool)
        ensures
            r == eq_ignore_ascii_case(self@, other@),
    {
        str_eq_ignore_ascii_case(self.text.as_str(), other)
    }
}

impl PartialEq for HeaderField {
    fn eq(&self, other: &HeaderField) -> (r: bool) {
        str_eq_ignore_ascii_case(self.text.as_str(), other.text.as_str())
    }
}

impl Eq for HeaderField {

}

impl vstd::std_specs::cmp::PartialEqSpecImpl for HeaderField {
    open spec fn obeys_eq_spec() -> bool {
        true
    }

    open spec fn eq_spec(&self, other: &HeaderField) -> bool {
        eq_ignore_ascii_case(self@, other@)
    }
}

/// HTTP method (eg. `GET`, `POST`, etc.)
///
/// Any ASCII token may serve as a method; the set is not closed.
///
/// Comparison between two `Method`s ignores case.
#[derive(Clone)]
pub struct Method {
    text: String,
}

impl View for Method {
    type V = Seq<char>;

    closed spec fn view(&self) -> Seq<char> {
        self.text@
    }
}

impl Method {
    /// Every character of a constructed token lies in the ASCII range.
    pub open spec fn wf(&self) -> bool {
        is_ascii_text(self@)
    }

    /// Builds a method token from `s`; yields no value when any character
    /// falls outside the ASCII range.
    pub fn from_str(s: &str) -> (r: Option<Method>)
        ensures
            r is Some <==> is_ascii_text(s@),
            match r {
                Some(m) => m@ == s@ && m.wf(),
                None => true,
            },
    {
        if str_is_ascii_text(s) {
            Some(Method { text: s.to_owned() })
        } else {
            None
        }
    }

    /// The token's text.
    pub fn as_str(&self) -> (r: &str)
        ensures
            r@ == self@,
    {
        self.text.as_str()
    }

    /// Gives the token's text away.
    pub fn into_string(self) -> (r: String)
        ensures
            r@ == self@,
    {
        self.text
    }

    /// Whether the token names the same method as the plain text `other`,
    /// ignoring ASCII case.
    pub fn equiv(&self, other: &str) -> (r: bool)
        ensures
            r == eq_ignore_ascii_case(self@, other@),
    {
        str_eq_ignore_ascii_case(self.text.as_str(), other)
    }
}

impl PartialEq for Method {
    fn eq(&self, other: &Method) -> (r: bool) {
        str_eq_ignore_ascii_case(self.text.as_str(), other.text.as_str())
    }
}

impl Eq for Method {

}

impl vstd::std_specs::cmp::PartialEqSpecImpl for Method {
    open spec fn obeys_eq_spec() -> bool {
        true
    }

    open spec fn eq_spec(&self, other: &Method) -> bool {
        eq_ignore_ascii_case(self@, other@)
    }
}

/// Method tokens parsed from two texts are equal — under the `==` of
/// `Method`, which folds ASCII case — exactly when the texts agree
/// ignoring ASCII case.
pub proof fn lemma_parsed_methods_equality(a: Seq<char>, b: Seq<char>, m1: Method, m2: Method)
    requires
        m1@ == a,
        m2@ == b,
    ensures
        m1.eq_spec(&m2) <==> eq_ignore_ascii_case(a, b),
{
}

/// What parsing one header line yields: the trimmed, validated field text
/// and the trimmed value text, or nothing when the line has no colon or
/// the field candidate is not ASCII.
pub open spec fn parse_header(s: Seq<char>) -> Option<(Seq<char>, Seq<char>)> {
    let i = find_char(s, ':');
    if i < 0 {
        None
    } else {
        let field = trimmed(s.subrange(0, i));
        if is_ascii_text(field) {
            Some((field, trimmed(s.subrange(i + 1, s.len() as int))))
        } else {
            None
        }
    }
}

/// Represents a HTTP header.
///
/// The easiest way to create a `Header` object is to call `Header::from_str`.
#[derive(Clone)]
pub struct Header {
    pub field: HeaderField,
    pub value: String,
}

impl Header {
    /// Splits `input` at its first colon into a field candidate and a
    /// value, both trimmed of surrounding whitespace; yields no value when
    /// no colon is present or the field candidate is not ASCII. An empty
    /// trimmed value is accepted.
    pub fn from_str(input: &str) -> (r: Option<Header>)
        ensures
            r is Some <==> parse_header(input@) is Some,
            match r {
                Some(h) => parse_header(input@) == Some((h.field@, h.value@)) && h.field.wf(),
                None => true,
            },
    {
        let len = input.unicode_len();
        let colon = match find_first(input, ':') {
            None => {
                return None;
            },
            Some(i) => i,
        };
        let field = match HeaderField::from_str(input.substring_char(0, colon)) {
            None => {
                return None;
            },
            Some(f) => f,
        };
        let value = trim_str(input.substring_char(colon + 1, len));
        Some(Header { field, value: value.to_owned() })
    }

    /// The wire line of a header: the field, a colon and a space, the
    /// value.
    pub open spec fn spec_display(&self) -> Seq<char> {
        self.field@ + ": "@ + self.value@
    }

    /// Formats the header as `"<field>: <value>"`.
    pub fn to_string(&self) -> (r: String)
        ensures
            r@ == self.spec_display(),
    {
        let mut out = String::new();
        out.append(self.field.as_str());
        out.append(": ");
        out.append(self.value.as_str());
        proof {
            assert(out@ =~= self.spec_display());
        }
        out
    }
}

/// The character for one decimal digit.
pub open spec fn spec_digit(d: int) -> char {
    if d == 0 {
        '0'
    } else if d == 1 {
        '1'
    } else if d == 2 {
        '2'
    } else if d == 3 {
        '3'
    } else if d == 4 {
        '4'
    } else if d == 5 {
        '5'
    } else if d == 6 {
        '6'
    } else if d == 7 {
        '7'
    } else if d == 8 {
        '8'
    } else {
        '9'
    }
}

/// The decimal numeral of `n`: most significant digit first, no padding.
pub open spec fn spec_decimal(n: nat) -> Seq<char>
    decreases n,
{
    if n < 10 {
        seq![spec_digit(n as int)]
    } else {
        spec_decimal(n / 10) + seq![spec_digit((n % 10) as int)]
    }
}

/// Appends the character of the decimal digit `d` to `out`.
fn push_digit(out: &mut String, d: usize)
    requires
        d < 10,
    ensures
        final(out)@ == old(out)@ + seq![spec_digit(d as int)],
{
    let piece = match d {
        0 => "0",
        1 => "1",
        2 => "2",
        3 => "3",
        4 => "4",
        5 => "5",
        6 => "6",
        7 => "7",
        8 => "8",
        _ => "9",
    };
    proof {
        reveal_strlit("0");
        reveal_strlit("1");
        reveal_strlit("2");
        reveal_strlit("3");
        reveal_strlit("4");
        reveal_strlit("5");
        reveal_strlit("6");
        reveal_strlit("7");
        reveal_strlit("8");
        reveal_strlit("9");
        assert(piece@ =~= seq![spec_digit(d as int)]);
    }
    out.append(piece);
}

/// Appends the decimal numeral of `n` to `out`.
fn push_decimal(out: &mut String, n: usize)
    ensures
        final(out)@ == old(out)@ + spec_decimal(n as nat),
    decreases n,
{
    if n < 10 {
        push_digit(out, n);
    } else {
        proof {
            vstd::arithmetic::div_mod::lemma_div_is_strictly_smaller(n as int, 10);
        }
        push_decimal(out, n / 10);
        push_digit(out, n % 10);
        proof {
            assert(old(out)@ + spec_decimal((n / 10) as nat) + seq![
                spec_digit((n % 10) as int),
            ] =~= old(out)@ + spec_decimal(n as nat));
        }
    }
}

/// Status code of a request or response.
#[derive(Clone, Copy, PartialEq, Eq, Structural)]
pub struct StatusCode(pub usize);

/// The standard reason phrase attached to a status code; any code outside
/// the table maps to `"Unknown"`.
pub open spec fn spec_reason_phrase(code: int) -> Seq<char> {
    if code == 100 {
        "Continue"@
    } else if code == 101 {
        "Switching Protocols"@
    } else if code == 102 {
        "Processing"@
    } else if code == 118 {
        "Connection timed out"@
    } else if code == 200 {
        "OK"@
    } else if code == 201 {
        "Created"@
    } else if code == 202 {
        "Accepted"@
    } else if code == 203 {
        "Non-Authoritative Information"@
    } else if code == 204 {
        "No Content"@
    } else if code == 205 {
        "Reset Content"@
    } else if code == 206 {
        "Partial Content"@
    } else if code == 207 {
        "Multi-Status"@
    } else if code == 210 {
        "Content Different"@
    } else if code == 300 {
        "Multiple Choices"@
    } else if code == 301 {
        "Moved Permanently"@
    } else if code == 302 {
        "Found"@
    } else if code == 303 {
        "See Other"@
    } else if code == 304 {
        "Not Modified"@
    } else if code == 305 {
        "Use Proxy"@
    } else if code == 307 {
        "Temporary Redirect"@
    } else if code == 400 {
        "Bad Request"@
    } else if code == 401 {
        "Unauthorized"@
    } else if code == 402 {
        "Payment Required"@
    } else if code == 403 {
        "Forbidden"@
    } else if code == 404 {
        "Not Found"@
    } else if code == 405 {
        "Method Not Allowed"@
    } else if code == 406 {
        "Not Acceptable"@
    } else if code == 407 {
        "Proxy Authentication Required"@
    } else if code == 408 {
        "Request Time-out"@
    } else if code == 409 {
        "Conflict"@
    } else if code == 410 {
        "Gone"@
    } else if code == 411 {
        "Length Required"@
    } else if code == 412 {
        "Precondition Failed"@
    } else if code == 413 {
        "Request Entity Too Large"@
    } else if code == 414 {
        "Reques-URI Too Large"@
    } else if code == 415 {
        "Unsupported Media Type"@
    } else if code == 416 {
        "Request range not satisfiable"@
    } else if code == 417 {
        "Expectation Failed"@
    } else if code == 500 {
        "Internal Server Error"@
    } else if code == 501 {
        "Not Implemented"@
    } else if code == 502 {
        "Bad Gateway"@
    } else if code == 503 {
        "Service Unavailable"@
    } else if code == 504 {
        "Gateway Time-out"@
    } else if code == 505 {
        "HTTP Version not supported"@
    } else {
        "Unknown"@
    }
}

impl StatusCode {
    /// Returns the status code as a number.
    pub fn as_uint(&self) -> (r: usize)
        ensures
            r == self.0,
    {
        self.0
    }

    /// Returns the default reason phrase for this status code.
    /// For example the status code 404 corresponds to "Not Found".
    pub fn get_default_reason_phrase(&self) -> (r: &'static str)
        ensures
            r@ == spec_reason_phrase(self.0 as int),
    {
        match self.0 {
            100 => "Continue",
            101 => "Switching Protocols",
            102 => "Processing",
            118 => "Connection timed out",
            200 => "OK",
            201 => "Created",
            202 => "Accepted",
            203 => "Non-Authoritative Information",
            204 => "No Content",
            205 => "Reset Content",
            206 => "Partial Content",
            207 => "Multi-Status",
            210 => "Content Different",
            300 => "Multiple Choices",
            301 => "Moved Permanently",
            302 => "Found",
            303 => "See Other",
            304 => "Not Modified",
            305 => "Use Proxy",
            307 => "Temporary Redirect",
            400 => "Bad Request",
            401 => "Unauthorized",
            402 => "Payment Required",
            403 => "Forbidden",
            404 => "Not Found",
            405 => "Method Not Allowed",
            406 => "Not Acceptable",
            407 => "Proxy Authentication Required",
            408 => "Request Time-out",
            409 => "Conflict",
            410 => "Gone",
            411 => "Length Required",
            412 => "Precondition Failed",
            413 => "Request Entity Too Large",
            414 => "Reques-URI Too Large",
            415 => "Unsupported Media Type",
            416 => "Request range not satisfiable",
            417 => "Expectation Failed",
            500 => "Internal Server Error",
            501 => "Not Implemented",
            502 => "Bad Gateway",
            503 => "Service Unavailable",
            504 => "Gateway Time-out",
            505 => "HTTP Version not supported",
            _ => "Unknown",
        }
    }

    /// A status code is equivalent to a bare integer with the same value.
    pub fn equiv(&self, other: usize) -> (r: bool)
        ensures
            r == (self.0 == other),
    {
        self.0 == other
    }
}

impl PartialOrd for StatusCode {
    fn partial_cmp(&self, other: &StatusCode) -> (r: Option<core::cmp::Ordering>) {
        if self.0 < other.0 {
            Some(core::cmp::Ordering::Less)
        } else if self.0 > other.0 {
            Some(core::cmp::Ordering::Greater)
        } else {
            Some(core::cmp::Ordering::Equal)
        }
    }
}

impl vstd::std_specs::cmp::PartialOrdSpecImpl for StatusCode {
    open spec fn obeys_partial_cmp_spec() -> bool {
        true
    }

    /// A status code orders as its underlying integer.
    open spec fn partial_cmp_spec(&self, other: &StatusCode) -> Option<core::cmp::Ordering> {
        if self.0 < other.0 {
            Some(core::cmp::Ordering::Less)
        } else if self.0 > other.0 {
            Some(core::cmp::Ordering::Greater)
        } else {
            Some(core::cmp::Ordering::Equal)
        }
    }
}

/// HTTP version (usually 1.0 or 1.1): a major and a minor component.
#[derive(Clone, Copy, PartialEq, Eq, Structural)]
pub struct HTTPVersion(pub usize, pub usize);

impl HTTPVersion {
    /// The display form of a version: major, a dot, minor, no padding.
    pub open spec fn spec_display(&self) -> Seq<char> {
        spec_decimal(self.0 as nat) + seq!['.'] + spec_decimal(self.1 as nat)
    }

    /// Formats the version as `"<major>.<minor>"`.
    pub fn to_string(&self) -> (r: String)
        ensures
            r@ == self.spec_display(),
    {
        let mut out = String::new();
        push_decimal(&mut out, self.0);
        proof {
            reveal_strlit(".");
        }
        out.append(".");
        push_decimal(&mut out, self.1);
        proof {
            assert(out@ =~= self.spec_display());
        }
        out
    }
}

impl PartialOrd for HTTPVersion {
    fn partial_cmp(&self, other: &HTTPVersion) -> (r: Option<core::cmp::Ordering>) {
        if self.0 < other.0 {
            Some(core::cmp::Ordering::Less)
        } else if self.0 > other.0 {
            Some(core::cmp::Ordering::Greater)
        } else if self.1 < other.1 {
            Some(core::cmp::Ordering::Less)
        } else if self.1 > other.1 {
            Some(core::cmp::Ordering::Greater)
        } else {
            Some(core::cmp::Ordering::Equal)
        }
    }
}

impl vstd::std_specs::cmp::PartialOrdSpecImpl for HTTPVersion {
    open spec fn obeys_partial_cmp_spec() -> bool {
        true
    }

    /// Versions order by the major component first, then by the minor one.
    open spec fn partial_cmp_spec(&self, other: &HTTPVersion) -> Option<core::cmp::Ordering> {
        if self.0 < other.0 {
            Some(core::cmp::Ordering::Less)
        } else if self.0 > other.0 {
            Some(core::cmp::Ordering::Greater)
        } else if self.1 < other.1 {
            Some(core::cmp::Ordering::Less)
        } else if self.1 > other.1 {
            Some(core::cmp::Ordering::Greater)
        } else {
            Some(core::cmp::Ordering::Equal)
        }
    }
}

/// The ordering of protocol versions is lexicographic: one version exceeds
/// another exactly when its major component is larger, or the majors are
/// equal and its minor component is larger.
pub proof fn lemma_version_order_is_lexicographic(a: HTTPVersion, b: HTTPVersion)
    ensures
        a.partial_cmp_spec(&b) == Some(core::cmp::Ordering::Greater) <==> (a.0 > b.0 || (a.0 == b.0
            && a.1 > b.1)),
        a.partial_cmp_spec(&b) == Some(core::cmp::Ordering::Less) <==> (a.0 < b.0 || (a.0 == b.0
            && a.1 < b.1)),
        a.partial_cmp_spec(&b) == Some(core::cmp::Ordering::Equal) <==> (a.0 == b.0 && a.1 == b.1),
{
}

} // verus!
