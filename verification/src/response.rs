//! Classification of provider responses.
//!
//! The provider answers with a JSON body, usually an object or an array of
//! objects that may carry a `status` string. Only the literal status
//! `"error"` marks a failure; everything else — a missing field, an
//! unexpected shape, even a body that is not JSON at all — is optimistically
//! taken as success. A non-string `status` is the one other failure marker.
//! The outer HTTP outcome is folded in by `interpret_response`: a transport
//! failure, a non-2xx status, or an unreadable 2xx body each mean failure.

use vstd::prelude::*;

verus! {

/// A parsed JSON document. Numeric payloads are not kept: no decision of
/// this library reads them.
pub enum JsonValue {
    Null,
    Bool(bool),
    Number,
    Str(String),
    Array(Vec<JsonValue>),
    Object(Vec<(String, JsonValue)>),
}

/// The first value bound to the key `status`, if any.
pub open spec fn status_of(fields: Seq<(String, JsonValue)>) -> Option<JsonValue>
    decreases fields.len(),
{
    if fields.len() == 0 {
        None
    } else if fields[0].0@ == "status"@ {
        Some(fields[0].1)
    } else {
        status_of(fields.drop_first())
    }
}

/// The verdict on one response object: success unless its `status` is the
/// string `"error"` or is present but not a string at all.
pub open spec fn object_verdict(fields: Seq<(String, JsonValue)>) -> bool {
    match status_of(fields) {
        None => true,
        Some(JsonValue::Str(s)) => s@ != "error"@,
        Some(_) => false,
    }
}

/// The verdict on a whole response document: an object is judged by
/// `object_verdict`; an array by its first element, when that is an object;
/// every other shape is taken as success.
pub open spec fn json_verdict(v: JsonValue) -> bool {
    match v {
        JsonValue::Object(fields) => object_verdict(fields@),
        JsonValue::Array(items) => if items@.len() == 0 {
            true
        } else {
            match items@[0] {
                JsonValue::Object(fields) => object_verdict(fields@),
                _ => true,
            }
        },
        _ => true,
    }
}

/// What the response body's text parses to: `None` when it is not
/// well-formed JSON. This names the (deterministic) result of the JSON
/// parser relied on below.
pub uninterp spec fn parsed_json_of(s: Seq<char>) -> Option<JsonValue>;

/// The number of bytes a character takes in UTF-8.
pub open spec fn utf8_len(c: char) -> int {
    if (c as u32) < 0x80 {
        1
    } else if (c as u32) < 0x800 {
        2
    } else if (c as u32) < 0x10000 {
        3
    } else {
        4
    }
}

fn utf8_len_exec(c: char) -> (n: u64)
    ensures
        n as int == utf8_len(c),
        1 <= n <= 4,
{
    let v = c as u32;
    if v < 0x80 {
        1
    } else if v < 0x800 {
        2
    } else if v < 0x10000 {
        3
    } else {
        4
    }
}

/// The lexical state of the limit scan after some prefix of a body:
/// whether it stands inside a string literal (and right after a backslash
/// escape there), the total UTF-8 bytes seen inside string literals, the
/// bracket depth and the deepest depth seen, and — inside a numeric
/// exponent — how many digits the current run holds and the longest run
/// seen.
pub struct ScanState {
    pub in_str: bool,
    pub esc: bool,
    pub str_bytes: int,
    pub in_exp: bool,
    pub exp_digits: int,
    pub max_exp_digits: int,
    pub depth: int,
    pub max_depth: int,
}

pub open spec fn scan_init() -> ScanState {
    ScanState {
        in_str: false,
        esc: false,
        str_bytes: 0,
        in_exp: false,
        exp_digits: 0,
        max_exp_digits: 0,
        depth: 0,
        max_depth: 0,
    }
}

/// One character of the limit scan. String literals follow JSON's own
/// lexing (a backslash escapes the next character; an unescaped quote ends
/// the string), so the scan agrees with the parser on which brackets are
/// structure; every character inside a literal adds its UTF-8 width to the
/// byte total (escape sequences only shrink when decoded, so the raw count
/// is an upper bound on any decoded string). Outside strings, brackets
/// move the depth; `e` or `E` opens an exponent context, one leading sign
/// keeps it, and its digits are counted. The scan over-approximates — it
/// counts digit runs after any structural `e`, and the bytes of every
/// literal, keys and values alike — which only tightens the limits, never
/// loosens them.
pub open spec fn scan_step(st: ScanState, c: char) -> ScanState {
    if st.esc {
        ScanState { esc: false, str_bytes: st.str_bytes + utf8_len(c), ..st }
    } else if st.in_str {
        if c == '\\' {
            ScanState { esc: true, str_bytes: st.str_bytes + utf8_len(c), ..st }
        } else if c == '"' {
            ScanState { in_str: false, ..st }
        } else {
            ScanState { str_bytes: st.str_bytes + utf8_len(c), ..st }
        }
    } else {
        if c == '"' {
            ScanState { in_str: true, in_exp: false, ..st }
        } else if c == '[' || c == '{' {
            ScanState {
                depth: st.depth + 1,
                max_depth: if st.depth + 1 > st.max_depth {
                    st.depth + 1
                } else {
                    st.max_depth
                },
                in_exp: false,
                ..st
            }
        } else if c == ']' || c == '}' {
            ScanState {
                depth: if st.depth > 0 {
                    st.depth - 1
                } else {
                    0
                },
                in_exp: false,
                ..st
            }
        } else if c == 'e' || c == 'E' {
            ScanState { in_exp: true, exp_digits: 0, ..st }
        } else if 48 <= (c as u32) && (c as u32) <= 57 {
            if st.in_exp {
                ScanState {
                    exp_digits: st.exp_digits + 1,
                    max_exp_digits: if st.exp_digits + 1 > st.max_exp_digits {
                        st.exp_digits + 1
                    } else {
                        st.max_exp_digits
                    },
                    ..st
                }
            } else {
                st
            }
        } else if c == '+' || c == '-' {
            if st.in_exp && st.exp_digits == 0 {
                st
            } else {
                ScanState { in_exp: false, ..st }
            }
        } else {
            ScanState { in_exp: false, ..st }
        }
    }
}

/// The limit scan over a whole body, character by character.
pub open spec fn scan(s: Seq<char>, st: ScanState) -> ScanState
    decreases s.len(),
{
    if s.len() == 0 {
        st
    } else {
        scan(s.drop_first(), scan_step(st, s[0]))
    }
}

/// A body within these limits is safe to hand to the JSON parser relied
/// on below, and each bound sits far above anything an ordinary response
/// holds while excluding a concrete failure:
/// - nesting depth at most 1024: the parser's value builder recurses once
///   per nesting level, as do this library's document conversion and the
///   nested document's drop, so the bound keeps all three stacks to a
///   small fraction of a default thread stack (overflowing one takes tens
///   of thousands of levels);
/// - exponent runs of at most 18 digits: the parser multiplies a
///   machine-word exponent accumulator by ten per digit, unchecked, so 18
///   digits keep it below ten to the eighteenth, within the 64-bit word of
///   this build (overflow takes 20);
/// - at most 65535 bytes of string-literal content: the parser keeps the
///   object keys of the current path concatenated in one buffer addressed
///   by 16-bit start and length, so keeping every literal's bytes within
///   one 16-bit range means no offset truncates (truncation could slice a
///   multi-byte character in two and fail the buffer's UTF-8 re-read) and
///   no start-plus-length sum wraps.
pub open spec fn within_parse_limits(s: Seq<char>) -> bool {
    scan(s, scan_init()).max_depth <= 1024 && scan(s, scan_init()).max_exp_digits <= 18 && scan(
        s,
        scan_init(),
    ).str_bytes <= 65535
}

proof fn lemma_scan_snoc(s: Seq<char>, c: char, st: ScanState)
    ensures
        scan(s.push(c), st) == scan_step(scan(s, st), c),
    decreases s.len(),
{
    if s.len() == 0 {
        assert(s.push(c)[0] == c);
        assert(s.push(c).drop_first() =~= Seq::<char>::empty());
        assert(scan(s.push(c), st) == scan(Seq::<char>::empty(), scan_step(st, c)));
    } else {
        assert(s.push(c)[0] == s[0]);
        assert(s.push(c).drop_first() =~= s.drop_first().push(c));
        lemma_scan_snoc(s.drop_first(), c, scan_step(st, s[0]));
    }
}

/// Runs the limit scan and decides whether `s` is safe to parse, exactly
/// as `within_parse_limits` states it.
pub fn body_within_limits(s: &str) -> (r: bool)
    ensures
        r == within_parse_limits(s@),
{
    let n = s.unicode_len();
    let mut in_str = false;
    let mut esc = false;
    let mut str_bytes: u128 = 0;
    let mut in_exp = false;
    let mut exp_digits: u64 = 0;
    let mut max_exp_digits: u64 = 0;
    let mut depth: u64 = 0;
    let mut max_depth: u64 = 0;
    let mut i: usize = 0;
    proof {
        assert(s@.subrange(0, 0) =~= Seq::<char>::empty());
    }
    while i < n
        invariant
            i <= n,
            n == s@.len(),
            depth <= i,
            max_depth <= i,
            exp_digits <= i,
            max_exp_digits <= i,
            str_bytes as int <= 4 * (i as int),
            scan(s@.subrange(0, i as int), scan_init()) == (ScanState {
                in_str,
                esc,
                str_bytes: str_bytes as int,
                in_exp,
                exp_digits: exp_digits as int,
                max_exp_digits: max_exp_digits as int,
                depth: depth as int,
                max_depth: max_depth as int,
            }),
        decreases n - i,
    {
        let c = s.get_char(i);
        proof {
            lemma_scan_snoc(s@.subrange(0, i as int), c, scan_init());
            assert(s@.subrange(0, i as int).push(c) =~= s@.subrange(0, i as int + 1));
        }
        if esc {
            esc = false;
            str_bytes = str_bytes + (utf8_len_exec(c) as u128);
        } else if in_str {
            if c == '\\' {
                esc = true;
                str_bytes = str_bytes + (utf8_len_exec(c) as u128);
            } else if c == '"' {
                in_str = false;
            } else {
                str_bytes = str_bytes + (utf8_len_exec(c) as u128);
            }
        } else {
            if c == '"' {
                in_str = true;
                in_exp = false;
            } else if c == '[' || c == '{' {
                depth = depth + 1;
                if depth > max_depth {
                    max_depth = depth;
                }
                in_exp = false;
            } else if c == ']' || c == '}' {
                if depth > 0 {
                    depth = depth - 1;
                }
                in_exp = false;
            } else if c == 'e' || c == 'E' {
                in_exp = true;
                exp_digits = 0;
            } else if 48 <= (c as u32) && (c as u32) <= 57 {
                if in_exp {
                    exp_digits = exp_digits + 1;
                    if exp_digits > max_exp_digits {
                        max_exp_digits = exp_digits;
                    }
                }
            } else if c == '+' || c == '-' {
                if !(in_exp && exp_digits == 0) {
                    in_exp = false;
                }
            } else {
                in_exp = false;
            }
        }
        i = i + 1;
    }
    proof {
        assert(s@.subrange(0, n as int) =~= s@);
    }
    max_depth <= 1024 && max_exp_digits <= 18 && str_bytes <= 65535
}

/// The verdict on a 2xx response body: a body beyond the parser's safe
/// limits, or one that is not well-formed JSON, passes — the optimistic
/// default — and anything else is judged by `json_verdict`.
pub open spec fn body_verdict(s: Seq<char>) -> bool {
    if !within_parse_limits(s) {
        true
    } else {
        match parsed_json_of(s) {
            None => true,
            Some(v) => json_verdict(v),
        }
    }
}

#[verifier::external_type_specification]
#[verifier::external_body]
pub struct ExJson(rustc_serialize::json::Json);

/// Relies on rustc_serialize's `Json` enum: each variant is carried to the
/// `JsonValue` variant of the same meaning, field for field (an object's
/// entries in their map order), numeric payloads dropped. Called only from
/// `parse_json` below, whose contract covers the pair.
#[verifier::external_body]
fn json_value_of(j: rustc_serialize::json::Json) -> JsonValue {
    match j {
        rustc_serialize::json::Json::Null => JsonValue::Null,
        rustc_serialize::json::Json::Boolean(b) => JsonValue::Bool(b),
        rustc_serialize::json::Json::I64(_) => JsonValue::Number,
        rustc_serialize::json::Json::U64(_) => JsonValue::Number,
        rustc_serialize::json::Json::F64(_) => JsonValue::Number,
        rustc_serialize::json::Json::String(s) => JsonValue::Str(s),
        rustc_serialize::json::Json::Array(a) => JsonValue::Array(
            a.into_iter().map(json_value_of).collect(),
        ),
        rustc_serialize::json::Json::Object(o) => JsonValue::Object(
            o.into_iter().map(|p| (p.0, json_value_of(p.1))).collect(),
        ),
    }
}

/// Relies on rustc_serialize's `Json::from_str`: a deterministic parse of
/// the whole string, `Ok` exactly on well-formed JSON. The parser's value
/// builder recurses once per nesting level, its exponent reader sums
/// digits with unchecked machine-word arithmetic, and its key buffer is
/// addressed with 16-bit offsets, so a body must stay within the scanned
/// limits before it may be handed over; `within_parse_limits` ties each
/// bound to the failure it excludes.
#[verifier::external_body]
pub(crate) fn parse_json(body: &str) -> (r: Option<JsonValue>)
    requires
        within_parse_limits(body@),
    ensures
        r == parsed_json_of(body@),
{
    match rustc_serialize::json::Json::from_str(body) {
        Ok(j) => Some(json_value_of(j)),
        Err(_) => None,
    }
}

/// Looks `fields` up as `status_of` does and returns the object's verdict.
pub fn object_verdict_exec(fields: &Vec<(String, JsonValue)>) -> (r: bool)
    ensures
        r == object_verdict(fields@),
{
    let status_key = "status".to_owned();
    let error_marker = "error".to_owned();
    let mut i: usize = 0;
    proof {
        assert(fields@.skip(0) =~= fields@);
    }
    while i < fields.len()
        invariant
            i <= fields@.len(),
            status_key@ == "status"@,
            error_marker@ == "error"@,
            status_of(fields@) == status_of(fields@.skip(i as int)),
        decreases fields@.len() - i,
    {
        proof {
            assert(fields@.skip(i as int)[0] == fields@[i as int]);
        }
        if fields[i].0 == status_key {
            match &fields[i].1 {
                JsonValue::Str(s) => {
                    return !(*s == error_marker);
                },
                _ => {
                    return false;
                },
            }
        }
        proof {
            assert(fields@.skip(i as int).drop_first() =~= fields@.skip(i as int + 1));
        }
        i = i + 1;
    }
    proof {
        assert(fields@.skip(fields@.len() as int) =~= Seq::<(String, JsonValue)>::empty());
    }
    true
}

/// The verdict on a parsed response document, as `json_verdict` states it.
pub fn json_verdict_exec(v: &JsonValue) -> (r: bool)
    ensures
        r == json_verdict(*v),
{
    match v {
        JsonValue::Object(fields) => object_verdict_exec(fields),
        JsonValue::Array(items) => {
            if items.len() == 0 {
                true
            } else {
                match &items[0] {
                    JsonValue::Object(fields) => object_verdict_exec(fields),
                    _ => true,
                }
            }
        },
        _ => true,
    }
}

/// The verdict on the text of a 2xx body: success unless it is
/// well-formed JSON, within the parser's safe limits, whose leading object
/// carries a failing `status`. A body beyond those limits is never handed
/// to the parser and takes the same optimistic default as one that does
/// not parse.
pub fn classify_body(body: &str) -> (r: bool)
    ensures
        r == body_verdict(body@),
{
    if !body_within_limits(body) {
        return true;
    }
    match parse_json(body) {
        None => true,
        Some(v) => json_verdict_exec(&v),
    }
}

/// One HTTP exchange as the transport reports it: either no response at
/// all, or a response with its 2xx-or-not status and the body text, `None`
/// when the body could not be read.
pub enum HttpOutcome {
    TransportError,
    Response { success: bool, body: Option<String> },
}

/// The caller-visible verdict on an exchange: a transport failure or a
/// non-2xx status is failure whatever the body held; a 2xx response fails
/// when its body could not be read, and is otherwise judged by
/// `body_verdict`.
pub open spec fn outcome_verdict(o: HttpOutcome) -> bool {
    match o {
        HttpOutcome::TransportError => false,
        HttpOutcome::Response { success, body } => success && match body {
            None => false,
            Some(b) => body_verdict(b@),
        },
    }
}

/// Decides success or failure of one exchange, as `outcome_verdict` states
/// it. No retry, no exception: every path returns a value.
pub fn interpret_response(o: &HttpOutcome) -> (r: bool)
    ensures
        r == outcome_verdict(*o),
{
    match o {
        HttpOutcome::TransportError => false,
        HttpOutcome::Response { success, body } => {
            if !*success {
                false
            } else {
                match body {
                    None => false,
                    Some(b) => classify_body(b.as_str()),
                }
            }
        },
    }
}

} // verus!
