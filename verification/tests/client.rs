use ns_client::Effect;
use ns_client::classify::{InboundEnvelope, Server2ClientMsg, VariableInfo, classify, handle_frame, serialize_variable_map};
use ns_client::dispatch::{Method, OutboundActionRequest, action_request, dispatch_action, evaluate_request, response_effects};
use ns_client::encode::uri_encode;
use ns_client::session::{SessionState, connection_attempt, fresh_identity, init_frame, subscribe_frame};

fn sample_info(name: &str, val: &str) -> String {
    format!(
        "{{\"name\":\"{n}\",\"originalInput\":\"{n}\",\"exp\":\"{v}\",\"keyword\":\"\",\"import\":\"\",\"operation\":\"assign\",\"hoisted\":\"no\",\"type\":\"int\",\"val\":\"{v}\",\"namespace\":\"A7pX2\"}}",
        n = name,
        v = val,
    )
}

#[test]
fn classify_variable_map() {
    let frame = format!("{{\"x\":{}}}", sample_info("x", "1"));
    match classify(&frame) {
        InboundEnvelope::VariableMap(m) => {
            assert_eq!(m.0.len(), 1);
            assert_eq!(m.0[0].0, "x");
            assert_eq!(m.0[0].1.name, "x");
            assert_eq!(m.0[0].1.original_input, "x");
            assert_eq!(m.0[0].1.exp, "1");
            assert_eq!(m.0[0].1.keyword, "");
            assert_eq!(m.0[0].1.import, "");
            assert_eq!(m.0[0].1.operation, "assign");
            assert_eq!(m.0[0].1.hoisted, "no");
            assert_eq!(m.0[0].1.var_type, "int");
            assert_eq!(m.0[0].1.val, "1");
            assert_eq!(m.0[0].1.namespace, "A7pX2");
        },
        _ => panic!("expected the variable-map shape"),
    }
}

#[test]
fn classify_raw_json_object() {
    match classify("{\"a\": 1}") {
        InboundEnvelope::RawJson(s) => assert_eq!(s, "{\"a\": 1}"),
        _ => panic!("expected raw JSON"),
    }
}

#[test]
fn classify_raw_json_scalar() {
    match classify("[1, 2, 3]") {
        InboundEnvelope::RawJson(s) => assert_eq!(s, "[1, 2, 3]"),
        _ => panic!("expected raw JSON"),
    }
}

#[test]
fn classify_plain_text() {
    match classify("deleted variable y") {
        InboundEnvelope::PlainText(s) => assert_eq!(s, "deleted variable y"),
        _ => panic!("expected plain text"),
    }
}

#[test]
fn classify_shape_mismatch_falls_through() {
    // One member lacks the "val" field: tier one refuses it, tier two takes it.
    let frame = "{\"x\":{\"name\":\"x\"}}";
    match classify(frame) {
        InboundEnvelope::RawJson(s) => assert_eq!(s, frame),
        _ => panic!("a shape mismatch must fall through to raw JSON"),
    }
}

#[test]
fn classify_extra_member_tolerated() {
    let info = "{\"name\":\"x\",\"originalInput\":\"x\",\"exp\":\"1\",\"keyword\":\"\",\"import\":\"\",\"operation\":\"\",\"hoisted\":\"\",\"type\":\"int\",\"val\":\"1\",\"namespace\":\"n\",\"extra\":\"kept\"}";
    let frame = format!("{{\"x\":{}}}", info);
    match classify(&frame) {
        InboundEnvelope::VariableMap(_) => {},
        _ => panic!("an extra member does not break the shape"),
    }
}

#[test]
fn classify_empty_object_is_variable_map() {
    // An object with no members vacuously matches the variable-map shape.
    match classify("{}") {
        InboundEnvelope::VariableMap(m) => assert_eq!(m.0.len(), 0),
        _ => panic!("an empty object matches the variable-map shape"),
    }
}

#[test]
fn classify_non_string_field_falls_through() {
    // The "name" member is present but no string: tier one refuses the shape.
    let frame = "{\"x\":{\"name\":1,\"originalInput\":\"x\",\"exp\":\"1\",\"keyword\":\"\",\"import\":\"\",\"operation\":\"\",\"hoisted\":\"\",\"type\":\"int\",\"val\":\"1\",\"namespace\":\"n\"}}";
    match classify(frame) {
        InboundEnvelope::RawJson(s) => assert_eq!(s, frame),
        _ => panic!("a non-string field does not match the shape"),
    }
}

#[test]
fn response_whitespace_is_canonicalized() {
    let efx = response_effects("  { \"result\" :  5 } ", "Result: ");
    assert_eq!(efx.len(), 1);
    match &efx[0] {
        Effect::Console(m) => assert_eq!(m, "Result: 5"),
        _ => panic!("a result surfaces success"),
    }
}

#[test]
fn response_duplicate_member_last_wins() {
    let efx = response_effects("{\"result\": 1, \"result\": 2}", "Result: ");
    assert_eq!(efx.len(), 1);
    match &efx[0] {
        Effect::Console(m) => assert_eq!(m, "Result: 2"),
        _ => panic!("a result surfaces success"),
    }
}

#[test]
fn handle_frame_variable_map_reserializes() {
    let frame = format!("{{\"x\":{}}}", sample_info("x", "1"));
    let efx = handle_frame(&frame);
    assert_eq!(efx.len(), 2);
    match &efx[0] {
        Effect::Log(s) => assert_eq!(s, &format!("Raw message received: {}", frame)),
        _ => panic!("first effect is the log line"),
    }
    match &efx[1] {
        Effect::UpdateEnvironment(s) => assert_eq!(s, &format!("{{\"x\":{}}}", sample_info("x", "1"))),
        _ => panic!("a variable map goes to the environment hook"),
    }
}

#[test]
fn handle_frame_raw_json_forwards_raw_text() {
    let efx = handle_frame("{\"a\": 1}");
    assert_eq!(efx.len(), 2);
    match &efx[1] {
        Effect::UpdateEnvironment(s) => assert_eq!(s, "{\"a\": 1}"),
        _ => panic!("raw JSON goes to the environment hook unchanged"),
    }
}

#[test]
fn handle_frame_plain_text_goes_to_console() {
    let efx = handle_frame("hello");
    assert_eq!(efx.len(), 2);
    match &efx[1] {
        Effect::Console(s) => assert_eq!(s, "hello"),
        _ => panic!("plain text goes to the console"),
    }
}

#[test]
fn serialize_escapes_strings() {
    let msg = Server2ClientMsg(vec![(
        "a\"b".to_string(),
        VariableInfo {
            name: "a\"b".to_string(),
            original_input: "line\nbreak".to_string(),
            exp: "tab\there".to_string(),
            keyword: "back\\slash".to_string(),
            import: "\u{1}".to_string(),
            operation: String::new(),
            hoisted: String::new(),
            var_type: String::new(),
            val: String::new(),
            namespace: String::new(),
        },
    )]);
    let s = serialize_variable_map(&msg);
    assert_eq!(
        s,
        "{\"a\\\"b\":{\"name\":\"a\\\"b\",\"originalInput\":\"line\\nbreak\",\"exp\":\"tab\\there\",\"keyword\":\"back\\\\slash\",\"import\":\"\\u0001\",\"operation\":\"\",\"hoisted\":\"\",\"type\":\"\",\"val\":\"\",\"namespace\":\"\"}}"
    );
}

#[test]
fn uri_encode_keeps_unreserved() {
    assert_eq!(uri_encode("AZaz09-_.!~*'()"), "AZaz09-_.!~*'()");
}

#[test]
fn uri_encode_escapes_reserved_and_unicode() {
    assert_eq!(uri_encode("1+2 = 3"), "1%2B2%20%3D%203");
    assert_eq!(uri_encode("caf\u{e9}"), "caf%C3%A9");
    assert_eq!(uri_encode("\u{20AC}"), "%E2%82%AC");
    assert_eq!(uri_encode("\u{1F600}"), "%F0%9F%98%80");
}

#[test]
fn evaluate_request_shape() {
    let q = evaluate_request("http://localhost:8080", "A7pX2", "1+2");
    assert!(matches!(q.method, Method::Post));
    assert_eq!(q.url, "http://localhost:8080/app/A7pX2");
    assert_eq!(q.body, "exp=1%2B2");
    assert_eq!(q.headers.len(), 2);
    assert_eq!(q.headers[0].0, "Content-Type");
    assert_eq!(q.headers[0].1, "application/x-www-form-urlencoded; charset=UTF-8");
    assert_eq!(q.headers[1].0, "X-Requested-With");
    assert_eq!(q.headers[1].1, "XMLHttpRequest");
}

#[test]
fn action_request_shape() {
    let q = action_request("http://localhost:8080", "A7pX2", "delete", "str", "y", "env", "dev");
    assert!(matches!(q.method, Method::Put));
    assert_eq!(q.url, "http://localhost:8080/app/A7pX2");
    assert_eq!(
        q.body,
        "{\"action\":\"delete\",\"args\":{\"arg\":{\"type\":\"str\",\"value\":\"y\"}},\"env\":{\"env\":\"dev\"}}"
    );
    assert_eq!(q.headers.len(), 2);
    assert_eq!(q.headers[0].0, "Content-Type");
    assert_eq!(q.headers[0].1, "application/json");
    assert_eq!(q.headers[1].0, "X-Requested-With");
    assert_eq!(q.headers[1].1, "XMLHttpRequest");
}

#[test]
fn dispatch_without_namespace_sends_nothing() {
    let s = SessionState::new(7);
    let req = OutboundActionRequest::EvaluateExpression { expr: "1+1".to_string() };
    let (q, efx) = dispatch_action(&s, "http://localhost:8080", &req);
    assert!(q.is_none());
    assert_eq!(efx.len(), 1);
    match &efx[0] {
        Effect::Console(m) => assert_eq!(m, "Namespace not set."),
        _ => panic!("the precondition failure is one local notice"),
    }
}

#[test]
fn dispatch_action_without_namespace_sends_nothing() {
    let s = SessionState::new(7);
    let req = OutboundActionRequest::InvokeAction {
        action: "delete".to_string(),
        arg_type: "str".to_string(),
        arg_value: "y".to_string(),
        env_name: "env".to_string(),
        env_value: "dev".to_string(),
    };
    let (q, efx) = dispatch_action(&s, "http://localhost:8080", &req);
    assert!(q.is_none());
    assert_eq!(efx.len(), 1);
    match &efx[0] {
        Effect::Console(m) => assert_eq!(m, "Namespace not set."),
        _ => panic!("the precondition failure is one local notice"),
    }
}

#[test]
fn dispatch_with_namespace_builds_request() {
    let mut s = SessionState::new(7);
    s.complete_handshake("A7pX2".to_string());
    let req = OutboundActionRequest::EvaluateExpression { expr: "1+1".to_string() };
    let (q, efx) = dispatch_action(&s, "http://localhost:8080", &req);
    let q = q.expect("a namespace admits the request");
    assert_eq!(q.url, "http://localhost:8080/app/A7pX2");
    assert_eq!(q.body, "exp=1%2B1");
    assert_eq!(efx.len(), 1);
    match &efx[0] {
        Effect::Console(m) => assert_eq!(m, "Sent: 1+1"),
        _ => panic!("submission is recorded on the console"),
    }
}

#[test]
fn response_result_surfaces_success() {
    let efx = response_effects("{\"result\": 5}", "Result: ");
    assert_eq!(efx.len(), 1);
    match &efx[0] {
        Effect::Console(m) => {
            assert_eq!(m, "Result: 5");
            assert!(m.contains('5'));
        },
        _ => panic!("a result surfaces success, never an alert"),
    }
}

#[test]
fn response_error_raises_alert() {
    let efx = response_effects("{\"error\": \"bad input\"}", "Result: ");
    assert_eq!(efx.len(), 1);
    match &efx[0] {
        Effect::Alert(m) => assert_eq!(m, "bad input"),
        _ => panic!("an application error is one blocking alert"),
    }
}

#[test]
fn response_empty_object_warns() {
    let efx = response_effects("{}", "Result: ");
    assert_eq!(efx.len(), 1);
    match &efx[0] {
        Effect::Console(m) => assert_eq!(m, "Unknown response format"),
        _ => panic!("an empty envelope is one warning, never an alert"),
    }
}

#[test]
fn response_non_json_is_transport_failure() {
    let efx = response_effects("<html>oops</html>", "Result: ");
    assert_eq!(efx.len(), 1);
    match &efx[0] {
        Effect::Console(m) => assert_eq!(m, "Failed to parse JSON response"),
        _ => panic!("an unparsable body never reaches the alert path"),
    }
}

#[test]
fn response_non_string_error_uses_fallback() {
    let efx = response_effects("{\"error\": 5}", "Result: ");
    assert_eq!(efx.len(), 1);
    match &efx[0] {
        Effect::Alert(m) => assert_eq!(m, "Unknown error"),
        _ => panic!("a non-string error still alerts"),
    }
}

#[test]
fn response_result_renders_nested_json() {
    let efx = response_effects("{\"result\": {\"a\": [1, \"x\", null, true]}}", "Action Result: ");
    assert_eq!(efx.len(), 1);
    match &efx[0] {
        Effect::Console(m) => assert_eq!(m, "Action Result: {\"a\":[1,\"x\",null,true]}"),
        _ => panic!("a result surfaces success"),
    }
}

#[test]
fn response_result_wins_over_error() {
    let efx = response_effects("{\"error\": \"e\", \"result\": 1}", "Result: ");
    assert_eq!(efx.len(), 1);
    match &efx[0] {
        Effect::Console(m) => assert_eq!(m, "Result: 1"),
        _ => panic!("the result member is read first"),
    }
}

#[test]
fn subscribe_frame_is_exact() {
    assert_eq!(subscribe_frame("A7pX2"), "{\"namespace\":\"A7pX2\",\"subscribe\":\"all\"}");
}

#[test]
fn init_frame_is_exact() {
    assert_eq!(init_frame(42), "{\"user_id\":42}");
    assert_eq!(init_frame(-7), "{\"user_id\":-7}");
    assert_eq!(init_frame(0), "{\"user_id\":0}");
    assert_eq!(init_frame(i32::MIN), "{\"user_id\":-2147483648}");
}

#[test]
fn connect_is_idempotent() {
    let id = fresh_identity();
    let mut s = SessionState::new(id);
    assert!(s.should_connect());
    let url = connection_attempt(&s, "ws://localhost:8080");
    assert_eq!(url.as_deref(), Some("ws://localhost:8080/ws"));
    s.complete_handshake("A7pX2".to_string());
    assert!(!s.should_connect());
    assert!(connection_attempt(&s, "ws://localhost:8080").is_none());
}

#[test]
fn identity_is_stable_across_messages() {
    let id = fresh_identity();
    let mut s = SessionState::new(id);
    let before = init_frame(s.identity);
    s.complete_handshake("A7pX2".to_string());
    let after = init_frame(s.identity);
    assert_eq!(before, after);
    assert_eq!(s.identity, id);
    assert_eq!(s.namespace.as_deref(), Some("A7pX2"));
}
