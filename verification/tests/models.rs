use opencode_protocol::config::{
    default_webfetch_permission, HealthResponse, OpenCodePermissions, Session,
};
use opencode_protocol::history::{into_chronological, ConversationMessage};
use opencode_protocol::json::{obj_get, Json, JsonField, JsonNum};
use opencode_protocol::part::ToolState;

fn to_model(v: &serde_json::Value) -> Json {
    match v {
        serde_json::Value::Null => Json::Null,
        serde_json::Value::Bool(b) => Json::Bool(*b),
        serde_json::Value::Number(n) => match n.as_i64() {
            Some(i) => Json::Num(JsonNum::Int(i)),
            None => Json::Num(JsonNum::Other),
        },
        serde_json::Value::String(s) => Json::Str(s.clone()),
        serde_json::Value::Array(a) => Json::Arr(a.iter().map(to_model).collect()),
        serde_json::Value::Object(o) => Json::Obj(
            o.iter().map(|(k, x)| JsonField { key: k.clone(), value: to_model(x) }).collect(),
        ),
    }
}

fn model_of(text: &str) -> Json {
    to_model(&serde_json::from_str(text).unwrap())
}

#[test]
fn tool_state_labels_and_predicates_agree() {
    let states = [
        ToolState::Pending { input: None },
        ToolState::Running { input: None, title: None, metadata: None },
        ToolState::Completed { input: None, output: None, title: None, metadata: None },
        ToolState::Error { input: None, error: None },
    ];
    let labels: Vec<&str> = states.iter().map(|s| s.status_str()).collect();
    assert_eq!(labels, vec!["pending", "running", "completed", "error"]);
    for s in &states {
        let label = s.status_str();
        assert!(matches!(label, "pending" | "running" | "completed" | "error"));
        assert_eq!(s.is_running(), label == "running");
        assert_eq!(s.is_completed(), label == "completed");
        assert_eq!(s.is_error(), label == "error");
        let flags = [s.is_running(), s.is_completed(), s.is_error()];
        assert!(flags.iter().filter(|f| **f).count() <= 1);
    }
}

#[test]
fn session_parses_with_optional_parent() {
    let s = Session::from_json(&model_of(r#"{"id":"s1","title":"chat","parentId":"s0"}"#)).unwrap();
    assert_eq!(s.id, "s1");
    assert_eq!(s.title, Some("chat".to_string()));
    assert_eq!(s.parent_id, Some("s0".to_string()));
    let s = Session::from_json(&model_of(r#"{"id":"s2"}"#)).unwrap();
    assert_eq!(s.id, "s2");
    assert_eq!(s.title, None);
    assert_eq!(s.parent_id, None);
    assert!(Session::from_json(&model_of(r#"{"title":"no id"}"#)).is_none());
}

#[test]
fn health_response_defaults_healthy_to_false() {
    let h = HealthResponse::from_json(&model_of(r#"{}"#)).unwrap();
    assert!(!h.healthy);
    assert_eq!(h.version, None);
    let h = HealthResponse::from_json(&model_of(r#"{"healthy":true,"version":"1.2"}"#)).unwrap();
    assert!(h.healthy);
    assert_eq!(h.version, Some("1.2".to_string()));
}

#[test]
fn permissions_default_webfetch_to_allow() {
    assert_eq!(default_webfetch_permission(), "allow");
    let p = OpenCodePermissions::from_json(&model_of(r#"{"edit":"ask","bash":"deny"}"#)).unwrap();
    assert_eq!(p.edit, "ask");
    assert_eq!(p.bash, "deny");
    assert_eq!(p.webfetch, "allow");
    assert!(OpenCodePermissions::from_json(&model_of(r#"{"edit":"ask"}"#)).is_none());
    let d = OpenCodePermissions::default();
    assert_eq!((d.edit.as_str(), d.bash.as_str(), d.webfetch.as_str()), ("allow", "allow", "allow"));
}

fn message(id: &str, created_at: i64) -> ConversationMessage {
    ConversationMessage {
        id: id.to_string(),
        channel_id: "c1".to_string(),
        role: "user".to_string(),
        sender_name: None,
        sender_id: None,
        content: format!("message {id}"),
        metadata: None,
        created_at,
    }
}

#[test]
fn recent_window_reverses_to_chronological_order() {
    // The store hands back the most recent messages first; consumers see
    // them oldest first.
    let newest_first = vec![message("m3", 30), message("m2", 20), message("m1", 10)];
    let chronological = into_chronological(newest_first);
    let ids: Vec<&str> = chronological.iter().map(|m| m.id.as_str()).collect();
    assert_eq!(ids, vec!["m1", "m2", "m3"]);
    assert!(chronological.windows(2).all(|w| w[0].created_at <= w[1].created_at));
    assert!(into_chronological(Vec::new()).is_empty());
}

#[test]
fn duplicate_copies_a_json_tree() {
    let j = model_of(r#"{"a":[1,true,null,"x"],"b":{"c":2.5}}"#);
    let copy = j.duplicate();
    assert_eq!(copy, j);
}

#[test]
fn object_lookup_takes_first_binding() {
    let obj = vec![
        JsonField { key: "k".to_string(), value: Json::Bool(true) },
        JsonField { key: "k".to_string(), value: Json::Bool(false) },
    ];
    assert_eq!(obj_get(&obj, "k"), Some(&Json::Bool(true)));
    assert_eq!(obj_get(&obj, "missing"), None);
}
