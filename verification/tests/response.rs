use native_bridge::invocation::{Action, Event, Invocation};
use native_bridge::outcome::CallOutcome;
use native_bridge::response::{
    format_response, receive, respond, serialize_outcome, wrap_error, wrap_result,
};

fn object(key: &str, value: serde_json::Value) -> serde_json::Value {
    let mut members = serde_json::Map::new();
    members.insert(key.to_string(), value);
    serde_json::Value::Object(members)
}

fn run_to_outcome(returned: Option<Vec<u8>>) -> CallOutcome {
    let mut invocation = Invocation::new("lib/stub.so".to_string(), "in.xlsx".to_string());
    invocation.step(Event::Start);
    invocation.step(Event::LibraryLoaded);
    invocation.step(Event::SymbolBound);
    match invocation.step(Event::Returned(returned)) {
        Action::Send(outcome) => outcome,
        other => panic!("expected an outcome, got {:?}", other),
    }
}

#[test]
fn fixed_ok_string_gives_the_exact_envelope() {
    let outcome = run_to_outcome(Some(b"ok".to_vec()));
    assert_eq!(respond(Ok(outcome)), "{\"result\":{\"result\":\"ok\"}}");
}

#[test]
fn null_pointer_gives_the_error_envelope() {
    let outcome = run_to_outcome(None);
    assert_eq!(respond(Ok(outcome)), "{\"error\":\"ReadExcelFile returned null pointer\"}");
}

#[test]
fn load_failure_gives_the_error_envelope() {
    let mut invocation = Invocation::new("missing.so".to_string(), "in.xlsx".to_string());
    invocation.step(Event::Start);
    let outcome = match invocation.step(Event::LoadFailed("missing.so: no such file".to_string())) {
        Action::Send(outcome) => outcome,
        other => panic!("expected an outcome, got {:?}", other),
    };
    assert_eq!(
        respond(Ok(outcome)),
        "{\"error\":\"Failed to load DLL: missing.so: no such file\"}"
    );
}

#[test]
fn missing_symbol_gives_the_error_envelope() {
    let mut invocation = Invocation::new("lib/stub.so".to_string(), "in.xlsx".to_string());
    invocation.step(Event::Start);
    invocation.step(Event::LibraryLoaded);
    let outcome = match invocation.step(Event::BindFailed("undefined symbol".to_string())) {
        Action::Send(outcome) => outcome,
        other => panic!("expected an outcome, got {:?}", other),
    };
    assert_eq!(
        respond(Ok(outcome)),
        "{\"error\":\"Failed to load ReadExcelFile function: undefined symbol\"}"
    );
}

#[test]
fn abnormal_end_gives_the_error_envelope() {
    let mut invocation = Invocation::new("lib/stub.so".to_string(), "in.xlsx".to_string());
    invocation.step(Event::Start);
    invocation.step(Event::LibraryLoaded);
    invocation.step(Event::SymbolBound);
    let outcome = match invocation.step(Event::Panicked("Any { .. }".to_string())) {
        Action::Send(outcome) => outcome,
        other => panic!("expected an outcome, got {:?}", other),
    };
    assert_eq!(respond(Ok(outcome)), "{\"error\":\"Thread panicked: Any { .. }\"}");
}

#[test]
fn closed_channel_gives_the_error_envelope() {
    assert_eq!(
        respond(Err("RecvError".to_string())),
        "{\"error\":\"Failed to receive result: RecvError\"}"
    );
}

#[test]
fn receive_passes_a_sent_outcome_on() {
    assert_eq!(
        receive(Ok(CallOutcome::Success("x".to_string()))),
        CallOutcome::Success("x".to_string())
    );
    assert_eq!(
        receive(Ok(CallOutcome::Failure("y".to_string()))),
        CallOutcome::Failure("y".to_string())
    );
    assert_eq!(
        receive(Err("RecvError".to_string())),
        CallOutcome::Failure("Failed to receive result: RecvError".to_string())
    );
}

#[test]
fn wrap_result_frames_the_inner_text() {
    assert_eq!(wrap_result("1"), "{\"result\":1}");
    assert_eq!(wrap_result("\"ok\""), "{\"result\":\"ok\"}");
    assert_eq!(wrap_result(""), "{\"result\":}");
}

#[test]
fn wrap_error_frames_the_inner_text() {
    assert_eq!(wrap_error("\"bad\""), "{\"error\":\"bad\"}");
}

#[test]
fn serialize_success_is_the_payload_object() {
    assert_eq!(
        serialize_outcome(&CallOutcome::Success("ok".to_string())),
        Ok("{\"result\":\"ok\"}".to_string())
    );
}

#[test]
fn serialize_failure_is_its_message() {
    assert_eq!(
        serialize_outcome(&CallOutcome::Failure("went wrong".to_string())),
        Err("went wrong".to_string())
    );
}

#[test]
fn payload_is_escaped_as_a_json_string() {
    assert_eq!(
        serialize_outcome(&CallOutcome::Success("say \"hi\"\n\\ \u{1}".to_string())),
        Ok("{\"result\":\"say \\\"hi\\\"\\n\\\\ \\u0001\"}".to_string())
    );
}

#[test]
fn message_is_escaped_as_a_json_string() {
    assert_eq!(
        format_response(&Err("no \"file\"\tat C:\\lib".to_string())),
        "{\"error\":\"no \\\"file\\\"\\tat C:\\\\lib\"}"
    );
}

#[test]
fn format_wraps_the_serialized_payload() {
    assert_eq!(
        format_response(&Ok("{\"result\":\"ok\"}".to_string())),
        "{\"result\":{\"result\":\"ok\"}}"
    );
}

#[test]
fn success_envelope_agrees_with_serde_json() {
    for text in ["ok", "", "a \"quoted\" word", "line\nbreak", "tab\there", "back\\slash", "ünï✓", "\u{7f}\u{0}"] {
        let expected = serde_json::to_string(&object(
            "result",
            object("result", serde_json::Value::String(text.to_string())),
        ))
        .unwrap();
        assert_eq!(respond(Ok(CallOutcome::Success(text.to_string()))), expected);
    }
}

#[test]
fn error_envelope_agrees_with_serde_json() {
    for text in ["bad", "", "a \"quoted\" word", "line\nbreak", "back\\slash", "ünï✓", "\u{1f}"] {
        let expected = object("error", serde_json::Value::String(text.to_string())).to_string();
        assert_eq!(respond(Ok(CallOutcome::Failure(text.to_string()))), expected);
    }
}

#[test]
fn envelope_parses_back_to_the_payload() {
    let text = "rows: 3; \"Sheet1\"\n";
    let envelope = respond(Ok(CallOutcome::Success(text.to_string())));
    let parsed: serde_json::Value = serde_json::from_str(&envelope).unwrap();
    assert_eq!(parsed["result"]["result"], serde_json::Value::String(text.to_string()));
    assert!(parsed.get("error").is_none());
}

#[test]
fn error_envelope_parses_back_to_the_message() {
    let envelope = respond(Err("RecvError".to_string()));
    let parsed: serde_json::Value = serde_json::from_str(&envelope).unwrap();
    assert_eq!(
        parsed["error"],
        serde_json::Value::String("Failed to receive result: RecvError".to_string())
    );
    assert!(parsed.get("result").is_none());
}

#[test]
fn same_outcome_gives_the_same_envelope() {
    let first = respond(Ok(run_to_outcome(Some(b"stable".to_vec()))));
    let second = respond(Ok(run_to_outcome(Some(b"stable".to_vec()))));
    assert_eq!(first, second);
    let first = respond(Ok(run_to_outcome(None)));
    let second = respond(Ok(run_to_outcome(None)));
    assert_eq!(first, second);
}

#[test]
fn lossy_text_reaches_the_envelope() {
    let outcome = run_to_outcome(Some(vec![b'o', 0xfe, b'k']));
    assert_eq!(respond(Ok(outcome)), "{\"result\":{\"result\":\"o\u{fffd}k\"}}");
}
