use opencode_protocol::event::{SessionStatusPayload, SseEvent, SseEventEnvelope};
use opencode_protocol::json::{Json, JsonField, JsonNum};
use opencode_protocol::part::{Part, ToolState};

fn to_model(v: &serde_json::Value) -> Json {
    match v {
        serde_json::Value::Null => Json::Null,
        serde_json::Value::Bool(b) => Json::Bool(*b),
        serde_json::Value::Number(n) => match n.as_i64() {
            Some(i) => Json::Num(JsonNum::Int(i)),
            None => Json::Num(JsonNum::Other),
        },
        serde_json::Value::String(s) => Json::Str(s.clone()),
        serde_json::Value::Array(a) => Json::Arr(a.iter().map(to_model).collect()),
        serde_json::Value::Object(o) => Json::Obj(
            o.iter().map(|(k, x)| JsonField { key: k.clone(), value: to_model(x) }).collect(),
        ),
    }
}

fn envelope(text: &str) -> SseEventEnvelope {
    let v: serde_json::Value = serde_json::from_str(text).unwrap();
    let event_type = v.get("type").unwrap().as_str().unwrap().to_string();
    let properties = v.get("properties").map(to_model).unwrap_or(Json::Null);
    SseEventEnvelope { event_type, properties }
}

#[test]
fn session_idle_classifies() {
    let e = envelope(r#"{"type":"session.idle","properties":{"sessionID":"s1"}}"#);
    let got = SseEvent::from_envelope(e);
    assert_eq!(got, SseEvent::SessionIdle { session_id: "s1".to_string() });
}

#[test]
fn tool_part_update_classifies() {
    let e = envelope(
        r#"{"type":"message.part.updated","properties":{"part":{"type":"tool","id":"p1","tool":"bash","state":{"status":"running","title":"ls"}},"delta":null}}"#,
    );
    let got = SseEvent::from_envelope(e);
    let expected = SseEvent::MessagePartUpdated {
        part: Part::Tool {
            id: "p1".to_string(),
            session_id: None,
            message_id: None,
            call_id: None,
            tool: Some("bash".to_string()),
            state: Some(ToolState::Running {
                input: None,
                title: Some("ls".to_string()),
                metadata: None,
            }),
        },
        delta: None,
    };
    assert_eq!(got, expected);
}

#[test]
fn unrecognized_type_is_unknown_verbatim() {
    let e = envelope(r#"{"type":"foo.bar","properties":{}}"#);
    let got = SseEvent::from_envelope(e);
    assert_eq!(got, SseEvent::Unknown("foo.bar".to_string()));
}

#[test]
fn session_status_retry_classifies() {
    let e = envelope(
        r#"{"type":"session.status","properties":{"sessionID":"s2","status":{"type":"retry","attempt":3}}}"#,
    );
    let got = SseEvent::from_envelope(e);
    assert_eq!(
        got,
        SseEvent::SessionStatus {
            session_id: "s2".to_string(),
            status: SessionStatusPayload::Retry { attempt: 3, message: None },
        }
    );
}

#[test]
fn session_status_idle_and_busy_classify() {
    let e = envelope(r#"{"type":"session.status","properties":{"sessionID":"s","status":{"type":"idle"}}}"#);
    assert_eq!(
        SseEvent::from_envelope(e),
        SseEvent::SessionStatus { session_id: "s".to_string(), status: SessionStatusPayload::Idle }
    );
    let e = envelope(r#"{"type":"session.status","properties":{"sessionID":"s","status":{"type":"busy"}}}"#);
    assert_eq!(
        SseEvent::from_envelope(e),
        SseEvent::SessionStatus { session_id: "s".to_string(), status: SessionStatusPayload::Busy }
    );
}

#[test]
fn missing_required_field_is_parse_error() {
    let e = envelope(r#"{"type":"session.idle","properties":{}}"#);
    let got = SseEvent::from_envelope(e);
    assert_eq!(got, SseEvent::Unknown("session.idle (parse error)".to_string()));
}

#[test]
fn unknown_tool_status_fails_whole_part() {
    // An unrecognized `status` makes the whole part fail, so the envelope
    // classifies as a parse error rather than dropping only the state.
    let e = envelope(
        r#"{"type":"message.part.updated","properties":{"part":{"type":"tool","id":"p","state":{"status":"paused"}}}}"#,
    );
    let got = SseEvent::from_envelope(e);
    assert_eq!(got, SseEvent::Unknown("message.part.updated (parse error)".to_string()));
}

#[test]
fn unknown_part_type_reads_as_other() {
    let e = envelope(
        r#"{"type":"message.part.updated","properties":{"part":{"type":"reasoning","id":"p"}}}"#,
    );
    let got = SseEvent::from_envelope(e);
    assert_eq!(got, SseEvent::MessagePartUpdated { part: Part::Other, delta: None });
}

#[test]
fn retry_attempt_out_of_range_is_parse_error() {
    let e = envelope(
        r#"{"type":"session.status","properties":{"sessionID":"s","status":{"type":"retry","attempt":4294967296}}}"#,
    );
    let got = SseEvent::from_envelope(e);
    assert_eq!(got, SseEvent::Unknown("session.status (parse error)".to_string()));
}

#[test]
fn retry_fractional_attempt_is_parse_error() {
    let e = envelope(
        r#"{"type":"session.status","properties":{"sessionID":"s","status":{"type":"retry","attempt":3.5}}}"#,
    );
    let got = SseEvent::from_envelope(e);
    assert_eq!(got, SseEvent::Unknown("session.status (parse error)".to_string()));
}

#[test]
fn message_updated_with_info_classifies() {
    let e = envelope(
        r#"{"type":"message.updated","properties":{"info":{"id":"m1","role":"assistant","sessionID":"s1"}}}"#,
    );
    match SseEvent::from_envelope(e) {
        SseEvent::MessageUpdated { info: Some(info) } => {
            assert_eq!(info.id, "m1");
            assert_eq!(info.role, "assistant");
            assert_eq!(info.session_id, Some("s1".to_string()));
            assert_eq!(info.time, None);
        }
        other => panic!("unexpected classification: {:?}", other),
    }
}

#[test]
fn message_updated_without_info_reads_as_absent() {
    let e = envelope(r#"{"type":"message.updated","properties":{}}"#);
    assert_eq!(SseEvent::from_envelope(e), SseEvent::MessageUpdated { info: None });
    let e = envelope(r#"{"type":"message.updated","properties":{"info":null}}"#);
    assert_eq!(SseEvent::from_envelope(e), SseEvent::MessageUpdated { info: None });
}

#[test]
fn message_updated_malformed_info_is_parse_error() {
    let e = envelope(r#"{"type":"message.updated","properties":{"info":{"role":"user"}}}"#);
    assert_eq!(
        SseEvent::from_envelope(e),
        SseEvent::Unknown("message.updated (parse error)".to_string())
    );
}

#[test]
fn session_error_malformed_session_id_is_parse_error() {
    let e = envelope(r#"{"type":"session.error","properties":{"sessionID":7}}"#);
    assert_eq!(
        SseEvent::from_envelope(e),
        SseEvent::Unknown("session.error (parse error)".to_string())
    );
}

#[test]
fn session_error_without_session_id_reads_as_absent() {
    let e = envelope(r#"{"type":"session.error","properties":{"error":"boom"}}"#);
    assert_eq!(
        SseEvent::from_envelope(e),
        SseEvent::SessionError {
            session_id: None,
            error: Some(Json::Str("boom".to_string())),
        }
    );
}

#[test]
fn session_error_keeps_error_payload() {
    let e = envelope(
        r#"{"type":"session.error","properties":{"sessionID":"s1","error":{"name":"boom"}}}"#,
    );
    match SseEvent::from_envelope(e) {
        SseEvent::SessionError { session_id, error } => {
            assert_eq!(session_id, Some("s1".to_string()));
            let error = error.expect("error payload kept");
            assert_eq!(
                error,
                Json::Obj(vec![JsonField {
                    key: "name".to_string(),
                    value: Json::Str("boom".to_string()),
                }])
            );
        }
        other => panic!("unexpected classification: {:?}", other),
    }
}

#[test]
fn permission_asked_classifies() {
    let e = envelope(
        r#"{"type":"permission.asked","properties":{"id":"perm1","sessionID":"s1","permission":"bash","patterns":["*.rs","src/**"]}}"#,
    );
    match SseEvent::from_envelope(e) {
        SseEvent::PermissionAsked(req) => {
            assert_eq!(req.id, "perm1");
            assert_eq!(req.session_id, "s1");
            assert_eq!(req.permission, Some("bash".to_string()));
            assert_eq!(req.patterns, vec!["*.rs".to_string(), "src/**".to_string()]);
            assert!(req.metadata.is_empty());
        }
        other => panic!("unexpected classification: {:?}", other),
    }
}

#[test]
fn permission_replied_classifies() {
    let e = envelope(
        r#"{"type":"permission.replied","properties":{"sessionID":"s1","requestID":"perm1","reply":"once"}}"#,
    );
    assert_eq!(
        SseEvent::from_envelope(e),
        SseEvent::PermissionReplied {
            session_id: "s1".to_string(),
            request_id: "perm1".to_string(),
            reply: "once".to_string(),
        }
    );
}

#[test]
fn question_asked_classifies() {
    let e = envelope(
        r#"{"type":"question.asked","properties":{"id":"q1","sessionID":"s1","questions":[{"question":"Proceed?","options":[{"label":"yes"},{"label":"no","description":"stop"}]}]}}"#,
    );
    match SseEvent::from_envelope(e) {
        SseEvent::QuestionAsked(req) => {
            assert_eq!(req.id, "q1");
            assert_eq!(req.session_id, "s1");
            assert_eq!(req.questions.len(), 1);
            let q = &req.questions[0];
            assert_eq!(q.question, Some("Proceed?".to_string()));
            assert_eq!(q.header, None);
            assert_eq!(q.options.len(), 2);
            assert_eq!(q.options[0].label, "yes");
            assert_eq!(q.options[0].description, None);
            assert_eq!(q.options[1].label, "no");
            assert_eq!(q.options[1].description, Some("stop".to_string()));
        }
        other => panic!("unexpected classification: {:?}", other),
    }
}

#[test]
fn question_replied_classifies() {
    let e = envelope(
        r#"{"type":"question.replied","properties":{"sessionID":"s1","requestID":"q1"}}"#,
    );
    assert_eq!(
        SseEvent::from_envelope(e),
        SseEvent::QuestionReplied { session_id: "s1".to_string(), request_id: "q1".to_string() }
    );
}

#[test]
fn text_part_defaults_missing_text_to_empty() {
    let e = envelope(
        r#"{"type":"message.part.updated","properties":{"part":{"type":"text","id":"p2"},"delta":"d"}}"#,
    );
    let expected = SseEvent::MessagePartUpdated {
        part: Part::Text {
            id: "p2".to_string(),
            session_id: None,
            message_id: None,
            text: String::new(),
            time: None,
        },
        delta: Some("d".to_string()),
    };
    assert_eq!(SseEvent::from_envelope(e), expected);
}

#[test]
fn envelope_without_properties_still_classifies() {
    let e = envelope(r#"{"type":"session.idle"}"#);
    assert_eq!(
        SseEvent::from_envelope(e),
        SseEvent::Unknown("session.idle (parse error)".to_string())
    );
}
