use opencode_protocol::config::{OpenCodeEnvConfig, OpenCodePermissions};
use opencode_protocol::json::{Json, JsonNum};
use opencode_protocol::request::{
    CreateSessionRequest, ModelParam, PartInput, PermissionReply, PermissionReplyRequest,
    QuestionAnswer, QuestionReplyRequest, SendPromptRequest,
};

fn to_value(j: &Json) -> serde_json::Value {
    match j {
        Json::Null => serde_json::Value::Null,
        Json::Bool(b) => serde_json::Value::Bool(*b),
        Json::Num(JsonNum::Int(i)) => serde_json::Value::from(*i),
        Json::Num(JsonNum::Other) => panic!("builders never produce an opaque number"),
        Json::Str(s) => serde_json::Value::String(s.clone()),
        Json::Arr(items) => serde_json::Value::Array(items.iter().map(to_value).collect()),
        Json::Obj(fields) => serde_json::Value::Object(
            fields.iter().map(|f| (f.key.clone(), to_value(&f.value))).collect(),
        ),
    }
}

fn value_of(text: &str) -> serde_json::Value {
    serde_json::from_str(text).unwrap()
}

#[test]
fn prompt_with_no_optional_fields_has_only_parts_key() {
    let req = SendPromptRequest {
        parts: vec![PartInput::Text { text: "hi".to_string(), synthetic: None }],
        system: None,
        model: None,
        agent: None,
    };
    let v = to_value(&req.to_json());
    let obj = v.as_object().unwrap();
    assert_eq!(obj.len(), 1);
    assert!(obj.contains_key("parts"));
    assert_eq!(v, value_of(r#"{"parts":[{"type":"text","text":"hi"}]}"#));
}

#[test]
fn prompt_with_all_fields_set_serializes_them() {
    let req = SendPromptRequest {
        parts: vec![
            PartInput::Text { text: "hi".to_string(), synthetic: Some(true) },
            PartInput::File {
                mime: "image/png".to_string(),
                url: "https://example.com/a.png".to_string(),
                filename: Some("a.png".to_string()),
            },
        ],
        system: Some("be terse".to_string()),
        model: Some(ModelParam {
            provider_id: "acme".to_string(),
            model_id: "fast-1".to_string(),
        }),
        agent: Some("coder".to_string()),
    };
    let v = to_value(&req.to_json());
    assert_eq!(
        v,
        value_of(
            r#"{"parts":[{"type":"text","text":"hi","synthetic":true},{"type":"file","mime":"image/png","url":"https://example.com/a.png","filename":"a.png"}],"system":"be terse","model":{"providerId":"acme","modelId":"fast-1"},"agent":"coder"}"#
        )
    );
}

#[test]
fn create_session_omits_absent_title() {
    let req = CreateSessionRequest { title: None };
    assert_eq!(to_value(&req.to_json()), value_of("{}"));
    let req = CreateSessionRequest { title: Some("chat".to_string()) };
    assert_eq!(to_value(&req.to_json()), value_of(r#"{"title":"chat"}"#));
}

#[test]
fn permission_reply_labels() {
    assert_eq!(PermissionReply::Once.as_str(), "once");
    assert_eq!(PermissionReply::Always.as_str(), "always");
    assert_eq!(PermissionReply::Reject.as_str(), "reject");
}

#[test]
fn permission_reply_request_serializes() {
    let req = PermissionReplyRequest { reply: PermissionReply::Reject, message: None };
    assert_eq!(to_value(&req.to_json()), value_of(r#"{"reply":"reject"}"#));
    let req = PermissionReplyRequest {
        reply: PermissionReply::Always,
        message: Some("ok".to_string()),
    };
    assert_eq!(to_value(&req.to_json()), value_of(r#"{"reply":"always","message":"ok"}"#));
}

#[test]
fn question_reply_request_serializes_ordered_answers() {
    let req = QuestionReplyRequest {
        answers: vec![
            QuestionAnswer { label: "yes".to_string(), description: None },
            QuestionAnswer { label: "no".to_string(), description: Some("stop".to_string()) },
        ],
    };
    assert_eq!(
        to_value(&req.to_json()),
        value_of(r#"{"answers":[{"label":"yes"},{"label":"no","description":"stop"}]}"#)
    );
}

#[test]
fn env_config_serializes_with_schema_url() {
    let cfg = OpenCodeEnvConfig::new(&OpenCodePermissions::default());
    assert_eq!(
        to_value(&cfg.to_json()),
        value_of(
            r#"{"$schema":"https://opencode.ai/config.json","lsp":false,"formatter":false,"permission":{"edit":"allow","bash":"allow","webfetch":"allow"}}"#
        )
    );
}

#[test]
fn env_config_keeps_given_permissions() {
    let perms = OpenCodePermissions {
        edit: "ask".to_string(),
        bash: "deny".to_string(),
        webfetch: "allow".to_string(),
    };
    let cfg = OpenCodeEnvConfig::new(&perms);
    assert_eq!(cfg.permission, perms);
    assert!(!cfg.lsp);
    assert!(!cfg.formatter);
}
