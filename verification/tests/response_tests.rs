use mandrill_client::response::{classify_body, interpret_response};
use mandrill_client::HttpOutcome;

fn ok_response(body: &str) -> HttpOutcome {
    HttpOutcome::Response { success: true, body: Some(body.to_string()) }
}

#[test]
fn two_xx_status_error_fails() {
    assert!(!classify_body("{\"status\":\"error\"}"));
    assert!(!interpret_response(&ok_response("{\"status\":\"error\"}")));
}

#[test]
fn two_xx_status_sent_passes() {
    assert!(classify_body("{\"status\":\"sent\"}"));
    assert!(interpret_response(&ok_response("{\"status\":\"sent\"}")));
}

#[test]
fn array_first_element_governs() {
    assert!(!classify_body("[{\"status\":\"error\"},{\"status\":\"sent\"}]"));
    assert!(classify_body("[{\"status\":\"sent\"},{\"status\":\"error\"}]"));
}

#[test]
fn empty_array_passes() {
    assert!(classify_body("[]"));
}

#[test]
fn empty_object_passes() {
    assert!(classify_body("{}"));
}

#[test]
fn unparseable_body_passes() {
    assert!(classify_body("not json"));
    assert!(interpret_response(&ok_response("not json")));
}

#[test]
fn other_statuses_pass() {
    assert!(classify_body("{\"status\":\"queued\"}"));
    assert!(classify_body("{\"status\":\"rejected\"}"));
    assert!(classify_body("{\"status\":\"invalid\"}"));
}

#[test]
fn non_string_status_fails() {
    assert!(!classify_body("{\"status\":5}"));
    assert!(!classify_body("{\"status\":null}"));
    assert!(!classify_body("{\"status\":[\"error\"]}"));
    assert!(!classify_body("[{\"status\":true}]"));
}

#[test]
fn non_object_shapes_pass() {
    assert!(classify_body("5"));
    assert!(classify_body("\"error\""));
    assert!(classify_body("null"));
    assert!(classify_body("true"));
    assert!(classify_body("[5,{\"status\":\"error\"}]"));
    assert!(classify_body("[[{\"status\":\"error\"}]]"));
}

#[test]
fn object_without_status_passes() {
    assert!(classify_body("{\"result\":\"error\"}"));
    assert!(classify_body("[{\"result\":\"error\"}]"));
}

#[test]
fn non_2xx_fails_regardless_of_body() {
    let cases = ["{\"status\":\"sent\"}", "{\"status\":\"error\"}", "not json", "[]"];
    for body in cases {
        let outcome = HttpOutcome::Response { success: false, body: Some(body.to_string()) };
        assert!(!interpret_response(&outcome));
    }
    let no_body = HttpOutcome::Response { success: false, body: None };
    assert!(!interpret_response(&no_body));
}

#[test]
fn transport_failure_fails() {
    assert!(!interpret_response(&HttpOutcome::TransportError));
}

#[test]
fn unreadable_2xx_body_fails() {
    let outcome = HttpOutcome::Response { success: true, body: None };
    assert!(!interpret_response(&outcome));
}

#[test]
fn overly_nested_body_takes_optimistic_default() {
    let mut deep = String::new();
    for _ in 0..2000 {
        deep.push('[');
    }
    deep.push_str("{\"status\":\"error\"}");
    for _ in 0..2000 {
        deep.push(']');
    }
    assert!(interpret_response(&ok_response(&deep)));
}

#[test]
fn deep_body_within_limits_keeps_its_verdict() {
    let mut nested = String::from("{\"status\":\"error\",\"x\":");
    for _ in 0..300 {
        nested.push('[');
    }
    for _ in 0..300 {
        nested.push(']');
    }
    nested.push('}');
    assert!(!classify_body(&nested));
    assert!(!classify_body("{\"status\":\"error\",\"x\":1e123456789}"));
}

#[test]
fn huge_exponent_body_takes_optimistic_default() {
    assert!(classify_body("1e99999999999999999999"));
    assert!(classify_body("{\"status\":1e99999999999999999999}"));
}

#[test]
fn oversized_key_takes_optimistic_default() {
    let mut body = String::from("{\"é");
    for _ in 0..65535 {
        body.push('a');
    }
    body.push_str("\":1}");
    assert!(classify_body(&body));
}

#[test]
fn large_strings_within_limits_keep_their_verdict() {
    let mut body = String::from("{\"status\":\"error\",\"note\":\"");
    for _ in 0..30000 {
        body.push('a');
    }
    body.push_str("\"}");
    assert!(!classify_body(&body));
}

#[test]
fn small_exponents_and_depth_still_parse() {
    assert!(!classify_body("{\"status\":\"error\",\"count\":1e3}"));
    assert!(classify_body("[[{\"x\":[]}],5]"));
    let mut shallow = String::from("[");
    for i in 0..200 {
        if i > 0 {
            shallow.push(',');
        }
        shallow.push_str("{\"status\":\"sent\"}");
    }
    shallow.push(']');
    assert!(classify_body(&shallow));
    let mut shallow_err = String::from("[{\"status\":\"error\"}");
    for _ in 0..199 {
        shallow_err.push_str(",{\"status\":\"sent\"}");
    }
    shallow_err.push(']');
    assert!(!classify_body(&shallow_err));
}

#[test]
fn brackets_inside_strings_do_not_nest() {
    let mut s = String::from("{\"status\":\"sent\",\"note\":\"");
    for _ in 0..500 {
        s.push('[');
    }
    s.push_str("\"}");
    assert!(classify_body(&s));
    let mut e = String::from("{\"note\":\"");
    for _ in 0..500 {
        e.push('{');
    }
    e.push_str("\",\"status\":\"error\"}");
    assert!(!classify_body(&e));
}
