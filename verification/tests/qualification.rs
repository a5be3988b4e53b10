use agentic_server::executor::qualification::{
    audit_outcome, data_of_stream, fault, faulted, inject, inject_event, AuditFailure, FailureAudit, Fault, FaultError,
    Response, RoundOutcome,
};
use agentic_server::json::JsonValue;

fn from_outside(value: serde_json::Value) -> JsonValue {
    match value {
        serde_json::Value::Null => JsonValue::Null,
        serde_json::Value::Bool(b) => JsonValue::Bool(b),
        serde_json::Value::Number(n) => JsonValue::Number(n.to_string()),
        serde_json::Value::String(s) => JsonValue::Text(s),
        serde_json::Value::Array(items) => JsonValue::Array(items.into_iter().map(from_outside).collect()),
        serde_json::Value::Object(members) => JsonValue::Object(
            members
                .into_iter()
                .map(|(name, value)| (name, from_outside(value)))
                .collect(),
        ),
    }
}

fn value(data: &str) -> JsonValue {
    from_outside(serde_json::from_str(data).expect("valid document"))
}

const STREAM: &str = "event: response.created\ndata: {\"type\":\"response.created\",\"response\":{\"model\":\"m\",\"status\":\"in_progress\"}}\r\n\ndata: {\"type\":\"delta\",\"n\":1}\n\ndata: {\"type\":\"response.completed\",\"response\":{\"model\":\"m\",\"status\":\"completed\"}}\n\ndata: [DONE]\n\n";

fn faulted_stream(kind: Fault) -> Vec<String> {
    let response = Response {
        body: None,
        sse: Some(vec![STREAM.to_owned()]),
    };
    faulted(response, kind)
        .expect("faulted")
        .sse
        .expect("stream")
}

#[test]
fn missing_model_is_taken_out_of_every_response() {
    assert_eq!(
        faulted_stream(Fault::MissingModel),
        vec![
            "data: {\"response\":{\"status\":\"in_progress\"},\"type\":\"response.created\"}\n\n",
            "data: {\"n\":1,\"type\":\"delta\"}\n\n",
            "data: {\"response\":{\"status\":\"completed\"},\"type\":\"response.completed\"}\n\n",
        ]
    );
}

#[test]
fn wrong_model_is_put_into_every_response() {
    let frames = faulted_stream(Fault::WrongModel);
    assert_eq!(frames.len(), 3);
    assert_eq!(
        frames[0],
        "data: {\"response\":{\"model\":\"not-the-qualified-snapshot\",\"status\":\"in_progress\"},\"type\":\"response.created\"}\n\n"
    );
    assert!(!frames[1].contains("not-the-qualified-snapshot"));
}

#[test]
fn missing_terminal_drops_the_completed_event() {
    assert_eq!(
        faulted_stream(Fault::MissingTerminal),
        vec![
            "data: {\"response\":{\"model\":\"m\"},\"type\":\"response.created\"}\n\n",
            "data: {\"n\":1,\"type\":\"delta\"}\n\n",
        ]
    );
}

#[test]
fn documents_carry_the_fault_too() {
    let body = || value("{\"id\":\"r\",\"model\":\"m\",\"status\":\"completed\"}");
    let faulted = |kind: Fault| {
        let response = Response {
            body: Some(body()),
            sse: None,
        };
        faulted(response, kind).expect("faulted")
    };
    assert_eq!(
        faulted(Fault::MissingModel),
        Response {
            body: Some(value("{\"id\":\"r\",\"status\":\"completed\"}")),
            sse: None,
        }
    );
    assert_eq!(
        faulted(Fault::WrongModel).body,
        Some(value("{\"id\":\"r\",\"model\":\"not-the-qualified-snapshot\",\"status\":\"completed\"}"))
    );
    assert_eq!(
        faulted(Fault::MissingTerminal).body,
        Some(value("{\"id\":\"r\",\"model\":\"m\"}"))
    );
}

#[test]
fn documents_that_cannot_carry_the_fault_are_refused() {
    assert_eq!(inject(JsonValue::Null, Fault::MissingModel), Err(FaultError::NotAnObject));
    assert_eq!(inject(JsonValue::Null, Fault::MissingTerminal), Err(FaultError::NotAnObject));
    assert_eq!(
        inject(JsonValue::Null, Fault::WrongModel),
        Ok(value("{\"model\":\"not-the-qualified-snapshot\"}"))
    );
    assert_eq!(inject(JsonValue::Bool(true), Fault::WrongModel), Err(FaultError::NotAnObject));
    assert_eq!(
        inject_event(value("{\"response\":7}"), Fault::MissingModel),
        Err(FaultError::NotAnObject)
    );
    let malformed = Response {
        body: None,
        sse: Some(vec!["data: {oops\n\n".to_owned()]),
    };
    assert_eq!(faulted(malformed, Fault::MissingModel), Err(FaultError::MalformedEvent));
}

#[test]
fn events_without_a_response_pass_through() {
    let event = "{\"type\":\"delta\"}";
    assert_eq!(inject_event(value(event), Fault::MissingModel), Ok(Some(value(event))));
    assert_eq!(inject_event(JsonValue::Null, Fault::WrongModel), Ok(Some(JsonValue::Null)));
    assert_eq!(
        inject_event(value("{\"type\":\"response.completed\"}"), Fault::MissingTerminal),
        Ok(None)
    );
    assert_eq!(
        inject_event(value("{\"type\":\"response.completed\"}"), Fault::MissingModel),
        Ok(Some(value("{\"type\":\"response.completed\"}")))
    );
}

#[test]
fn events_are_read_and_printed_as_serde_json_does() {
    for data in [
        "null",
        " true ",
        "\"a\\u00e9\\n\\\"\\u0001/\"",
        "-0",
        "1e2",
        "1.10",
        "0.1234567890123456789",
        "123456789012345678901234567890",
        "18446744073709551615",
        "[]",
        "[1, [2.50, {\"z\": [], \"a\": {}}], null]",
        "{\"b\": 1, \"a\": {\"y\": -1.5e-7, \"x\": \"\\ud83d\\ude00\"}, \"b\": 2}",
    ] {
        let response = Response {
            body: None,
            sse: Some(vec![format!("data:{data}\n\n")]),
        };
        let outside: serde_json::Value = serde_json::from_str(data).expect("valid document");
        assert_eq!(
            faulted(response, Fault::MissingModel).expect("faulted").sse,
            Some(vec![format!("data: {outside}\n\n")])
        );
    }
    for data in ["", "1e999", "[1,]", "{\"a\"}", "nul", "\"\\ud800\""] {
        let response = Response {
            body: None,
            sse: Some(vec![format!("data:{data}\n\n")]),
        };
        assert!(serde_json::from_str::<serde_json::Value>(data).is_err());
        assert_eq!(faulted(response, Fault::MissingModel), Err(FaultError::MalformedEvent));
    }
}

#[test]
fn any_parser_and_printer_will_do() {
    let parse = |data: &str| if data.is_empty() { None } else { Some(JsonValue::Text(data.to_owned())) };
    let render = |value: &JsonValue| value.as_str().map(str::to_uppercase).unwrap_or_default();
    let response = |raw: &str| Response {
        body: None,
        sse: Some(vec![raw.to_owned()]),
    };
    assert_eq!(
        fault(response("data:a\ndata:b\n"), Fault::WrongModel, &parse, &render),
        Ok(Response {
            body: None,
            sse: Some(vec!["data: A\n\n".to_owned(), "data: B\n\n".to_owned()]),
        })
    );
    assert_eq!(
        fault(response("data:\n"), Fault::WrongModel, &parse, &render),
        Err(FaultError::MalformedEvent)
    );
    let audit = FailureAudit { frames: 0, errors: 0 };
    assert_eq!(
        audit.observe("data:a\n", "secret", &parse),
        Ok(FailureAudit { frames: 1, errors: 0 })
    );
}

#[test]
fn only_data_lines_carry_data() {
    assert_eq!(
        data_of_stream("event: x\ndata: a\r\ndata:b\n:comment\ndata:  [DONE] \n data: c"),
        vec![" a".to_owned(), "b".to_owned()]
    );
    assert_eq!(data_of_stream(""), Vec::<String>::new());
}

fn audit(frames: &[&str]) -> Result<(), AuditFailure> {
    let mut audit = audit_outcome(&RoundOutcome::Streaming, "secret")?.expect("a stream");
    for frame in frames {
        audit = audit.observed(frame, "secret")?;
    }
    audit.finish()
}

#[test]
fn stream_that_fails_properly_passes() {
    assert_eq!(
        audit(&[
            "data: {\"type\":\"response.created\"}\n\n",
            "data: {\"type\":\"error\",\"message\":\"bad gateway\"}\n\n",
            "data: [DONE]\n\n",
        ]),
        Ok(())
    );
}

#[test]
fn stream_that_does_not_fail_is_caught() {
    assert_eq!(
        audit(&["data: {\"type\":\"response.created\"}\n\n"]),
        Err(AuditFailure::ErrorCount(0))
    );
    assert_eq!(
        audit(&["data: {\"type\":\"error\"}\ndata: {\"type\":\"error\"}\n\n"]),
        Err(AuditFailure::ErrorCount(2))
    );
    assert_eq!(
        audit(&["data: {\"type\":\"error\"}\n\n", "data: {\"type\":\"response.completed\"}\n\n"]),
        Err(AuditFailure::Completed)
    );
    assert_eq!(audit(&["data: nonsense\n\n"]), Err(AuditFailure::MalformedEvent));
    assert_eq!(
        audit(&["data: {\"type\":\"error\",\"message\":\"secret\"}\n\n"]),
        Err(AuditFailure::CredentialShown)
    );
}

#[test]
fn stream_may_have_a_bounded_number_of_frames() {
    let mut audit = FailureAudit { frames: 0, errors: 0 };
    for _ in 0..512 {
        audit = audit.observed(": keep-alive\n\n", "secret").expect("short enough");
    }
    assert_eq!(audit.frames, 512);
    assert_eq!(
        audit.observed(": keep-alive\n\n", "secret"),
        Err(AuditFailure::TooManyFrames)
    );
}

#[test]
fn blocking_round_must_be_a_bad_gateway_without_the_credential() {
    let failed = |status: u16, diagnostics: &str| {
        audit_outcome(
            &RoundOutcome::Failed {
                status,
                diagnostics: diagnostics.to_owned(),
            },
            "secret",
        )
    };
    assert_eq!(failed(502, "Upstream failed"), Ok(None));
    assert_eq!(failed(500, "Upstream failed"), Err(AuditFailure::WrongStatus(500)));
    assert_eq!(failed(502, "token secret!"), Err(AuditFailure::CredentialShown));
    assert_eq!(audit_outcome(&RoundOutcome::Answered, "secret"), Err(AuditFailure::Answered));
}
