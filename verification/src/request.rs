//! Outbound request bodies: pure construction of the JSON values the
//! transport sends.
//!
//! An optional field left unset is entirely absent from the built object —
//! never emitted as `null` — since the server distinguishes the two.

use vstd::prelude::*;
use crate::json::{fields_view, items_view, lemma_fields_view, lemma_items_view, Json, JsonField, JsonV};

verus! {

/// Body for creating a session.
#[derive(Debug, PartialEq)]
pub struct CreateSessionRequest {
    pub title: Option<String>,
}

/// A single part within a prompt: text, or a file reference.
#[derive(Clone, Debug, PartialEq)]
pub enum PartInput {
    Text { text: String, synthetic: Option<bool> },
    File { mime: String, url: String, filename: Option<String> },
}

/// Model selection for a prompt.
#[derive(Clone, Debug, PartialEq)]
pub struct ModelParam {
    pub provider_id: String,
    pub model_id: String,
}

/// Body for sending a prompt: ordered parts, with optional system prompt,
/// model selection and agent name.
#[derive(Debug, PartialEq)]
pub struct SendPromptRequest {
    pub parts: Vec<PartInput>,
    pub system: Option<String>,
    pub model: Option<ModelParam>,
    pub agent: Option<String>,
}

/// The three possible permission replies.
#[derive(Clone, Copy, Debug, PartialEq)]
pub enum PermissionReply {
    Once,
    Always,
    Reject,
}

/// Body for replying to a permission request.
#[derive(Debug, PartialEq)]
pub struct PermissionReplyRequest {
    pub reply: PermissionReply,
    pub message: Option<String>,
}

/// A single answer to a question.
#[derive(Clone, Debug, PartialEq)]
pub struct QuestionAnswer {
    pub label: String,
    pub description: Option<String>,
}

/// Body for replying to a question request.
#[derive(Debug, PartialEq)]
pub struct QuestionReplyRequest {
    pub answers: Vec<QuestionAnswer>,
}

/// An optional trailing string field: one binding when set, none when not.
pub open spec fn opt_field(key: Seq<char>, v: Option<String>) -> Seq<(Seq<char>, JsonV)> {
    match v {
        Some(s) => seq![(key, JsonV::Str(s@))],
        None => Seq::empty(),
    }
}

impl CreateSessionRequest {
    /// The built body: `{}` or `{"title": ...}`.
    pub open spec fn spec_to_json(self) -> JsonV {
        JsonV::Obj(opt_field("title"@, self.title))
    }

    /// Build the wire body for this request.
    pub fn to_json(&self) -> (r: Json)
        ensures
            r@ == self.spec_to_json(),
    {
        let mut fields: Vec<JsonField> = Vec::new();
        match &self.title {
            Some(t) => {
                fields.push(JsonField { key: "title".to_string(), value: Json::Str(t.clone()) });
            },
            None => {},
        }
        let r = Json::Obj(fields);
        proof {
            lemma_fields_view(r->Obj_0@);
            assert(fields_view(r->Obj_0@) =~= opt_field("title"@, self.title));
        }
        r
    }
}

impl PartInput {
    /// The built body: tagged by `type`, with unset optional fields absent.
    pub open spec fn spec_to_json(self) -> JsonV {
        match self {
            PartInput::Text { text, synthetic } => JsonV::Obj(
                seq![("type"@, JsonV::Str("text"@)), ("text"@, JsonV::Str(text@))] + (
                match synthetic {
                    Some(b) => seq![("synthetic"@, JsonV::Bool(b))],
                    None => Seq::empty(),
                }),
            ),
            PartInput::File { mime, url, filename } => JsonV::Obj(
                seq![
                    ("type"@, JsonV::Str("file"@)),
                    ("mime"@, JsonV::Str(mime@)),
                    ("url"@, JsonV::Str(url@)),
                ] + opt_field("filename"@, filename),
            ),
        }
    }

    /// Build the wire body for this part.
    pub fn to_json(&self) -> (r: Json)
        ensures
            r@ == self.spec_to_json(),
    {
        let mut fields: Vec<JsonField> = Vec::new();
        match self {
            PartInput::Text { text, synthetic } => {
                fields.push(
                    JsonField { key: "type".to_string(), value: Json::Str("text".to_string()) },
                );
                fields.push(JsonField { key: "text".to_string(), value: Json::Str(text.clone()) });
                match synthetic {
                    Some(b) => {
                        fields.push(
                            JsonField { key: "synthetic".to_string(), value: Json::Bool(*b) },
                        );
                    },
                    None => {},
                }
            },
            PartInput::File { mime, url, filename } => {
                fields.push(
                    JsonField { key: "type".to_string(), value: Json::Str("file".to_string()) },
                );
                fields.push(JsonField { key: "mime".to_string(), value: Json::Str(mime.clone()) });
                fields.push(JsonField { key: "url".to_string(), value: Json::Str(url.clone()) });
                match filename {
                    Some(f) => {
                        fields.push(
                            JsonField {
                                key: "filename".to_string(),
                                value: Json::Str(f.clone()),
                            },
                        );
                    },
                    None => {},
                }
            },
        }
        let r = Json::Obj(fields);
        proof {
            lemma_fields_view(r->Obj_0@);
            assert(fields_view(r->Obj_0@) =~= self.spec_to_json()->Obj_0);
        }
        r
    }
}

impl ModelParam {
    /// The built body: `{"providerId": ..., "modelId": ...}`.
    pub open spec fn spec_to_json(self) -> JsonV {
        JsonV::Obj(
            seq![
                ("providerId"@, JsonV::Str(self.provider_id@)),
                ("modelId"@, JsonV::Str(self.model_id@)),
            ],
        )
    }

    /// Build the wire body for this model selection.
    pub fn to_json(&self) -> (r: Json)
        ensures
            r@ == self.spec_to_json(),
    {
        let mut fields: Vec<JsonField> = Vec::new();
        fields.push(
            JsonField { key: "providerId".to_string(), value: Json::Str(self.provider_id.clone()) },
        );
        fields.push(
            JsonField { key: "modelId".to_string(), value: Json::Str(self.model_id.clone()) },
        );
        let r = Json::Obj(fields);
        proof {
            lemma_fields_view(r->Obj_0@);
            assert(fields_view(r->Obj_0@) =~= self.spec_to_json()->Obj_0);
        }
        r
    }
}

/// The built bodies of a sequence of parts, in order.
pub open spec fn parts_json(parts: Seq<PartInput>) -> Seq<JsonV> {
    Seq::new(parts.len(), |i: int| parts[i].spec_to_json())
}

impl SendPromptRequest {
    /// The built body: `parts` always present; `system`, `model` and
    /// `agent` present exactly when set.
    pub open spec fn spec_to_json(self) -> JsonV {
        JsonV::Obj(
            seq![("parts"@, JsonV::Arr(parts_json(self.parts@)))] + opt_field(
                "system"@,
                self.system,
            ) + (match self.model {
                Some(m) => seq![("model"@, m.spec_to_json())],
                None => Seq::empty(),
            }) + opt_field("agent"@, self.agent),
        )
    }

    /// Build the wire body for this prompt.
    pub fn to_json(&self) -> (r: Json)
        ensures
            r@ == self.spec_to_json(),
    {
        let mut items: Vec<Json> = Vec::new();
        let mut i: usize = 0;
        while i < self.parts.len()
            invariant
                i <= self.parts.len(),
                items@.len() == i,
                forall|k: int| 0 <= k < i ==> items@[k]@ == self.parts@[k].spec_to_json(),
            decreases self.parts.len() - i,
        {
            let p = self.parts[i].to_json();
            items.push(p);
            i += 1;
        }
        proof {
            lemma_items_view(items@);
            assert(items_view(items@) =~= parts_json(self.parts@));
        }
        let mut fields: Vec<JsonField> = Vec::new();
        fields.push(JsonField { key: "parts".to_string(), value: Json::Arr(items) });
        match &self.system {
            Some(s) => {
                fields.push(JsonField { key: "system".to_string(), value: Json::Str(s.clone()) });
            },
            None => {},
        }
        match &self.model {
            Some(m) => {
                fields.push(JsonField { key: "model".to_string(), value: m.to_json() });
            },
            None => {},
        }
        match &self.agent {
            Some(a) => {
                fields.push(JsonField { key: "agent".to_string(), value: Json::Str(a.clone()) });
            },
            None => {},
        }
        let r = Json::Obj(fields);
        proof {
            lemma_fields_view(r->Obj_0@);
            assert(fields_view(r->Obj_0@) =~= self.spec_to_json()->Obj_0);
        }
        r
    }
}

/// A prompt with no optional field set builds an object holding the
/// `parts` key and nothing else: absent fields leave no key behind.
pub proof fn lemma_prompt_omits_absent_fields(req: SendPromptRequest)
    requires
        req.system is None,
        req.model is None,
        req.agent is None,
    ensures
        req.spec_to_json() == JsonV::Obj(
            seq![("parts"@, JsonV::Arr(parts_json(req.parts@)))],
        ),
{
    assert(seq![("parts"@, JsonV::Arr(parts_json(req.parts@)))] + Seq::<
        (Seq<char>, JsonV),
    >::empty() + Seq::<(Seq<char>, JsonV)>::empty() + Seq::<(Seq<char>, JsonV)>::empty() =~= seq![
        ("parts"@, JsonV::Arr(parts_json(req.parts@))),
    ]);
}

impl PermissionReply {
    /// The wire label of this reply.
    pub open spec fn spec_label(self) -> Seq<char> {
        match self {
            PermissionReply::Once => "once"@,
            PermissionReply::Always => "always"@,
            PermissionReply::Reject => "reject"@,
        }
    }

    /// The label this reply is sent as.
    pub fn as_str(&self) -> (r: &'static str)
        ensures
            r@ == self.spec_label(),
    {
        match self {
            PermissionReply::Once => "once",
            PermissionReply::Always => "always",
            PermissionReply::Reject => "reject",
        }
    }
}

impl PermissionReplyRequest {
    /// The built body: the reply label, and the message when set.
    pub open spec fn spec_to_json(self) -> JsonV {
        JsonV::Obj(
            seq![("reply"@, JsonV::Str(self.reply.spec_label()))] + opt_field(
                "message"@,
                self.message,
            ),
        )
    }

    /// Build the wire body for this reply.
    pub fn to_json(&self) -> (r: Json)
        ensures
            r@ == self.spec_to_json(),
    {
        let mut fields: Vec<JsonField> = Vec::new();
        fields.push(
            JsonField { key: "reply".to_string(), value: Json::Str(self.reply.as_str().to_string()) },
        );
        match &self.message {
            Some(m) => {
                fields.push(JsonField { key: "message".to_string(), value: Json::Str(m.clone()) });
            },
            None => {},
        }
        let r = Json::Obj(fields);
        proof {
            lemma_fields_view(r->Obj_0@);
            assert(fields_view(r->Obj_0@) =~= self.spec_to_json()->Obj_0);
        }
        r
    }
}

impl QuestionAnswer {
    /// The built body: the label, and the description when set.
    pub open spec fn spec_to_json(self) -> JsonV {
        JsonV::Obj(
            seq![("label"@, JsonV::Str(self.label@))] + opt_field("description"@, self.description),
        )
    }

    /// Build the wire body for this answer.
    pub fn to_json(&self) -> (r: Json)
        ensures
            r@ == self.spec_to_json(),
    {
        let mut fields: Vec<JsonField> = Vec::new();
        fields.push(JsonField { key: "label".to_string(), value: Json::Str(self.label.clone()) });
        match &self.description {
            Some(d) => {
                fields.push(
                    JsonField { key: "description".to_string(), value: Json::Str(d.clone()) },
                );
            },
            None => {},
        }
        let r = Json::Obj(fields);
        proof {
            lemma_fields_view(r->Obj_0@);
            assert(fields_view(r->Obj_0@) =~= self.spec_to_json()->Obj_0);
        }
        r
    }
}

/// The built bodies of a sequence of answers, in order.
pub open spec fn answers_json(answers: Seq<QuestionAnswer>) -> Seq<JsonV> {
    Seq::new(answers.len(), |i: int| answers[i].spec_to_json())
}

impl QuestionReplyRequest {
    /// The built body: the ordered answer list.
    pub open spec fn spec_to_json(self) -> JsonV {
        JsonV::Obj(seq![("answers"@, JsonV::Arr(answers_json(self.answers@)))])
    }

    /// Build the wire body for this reply.
    pub fn to_json(&self) -> (r: Json)
        ensures
            r@ == self.spec_to_json(),
    {
        let mut items: Vec<Json> = Vec::new();
        let mut i: usize = 0;
        while i < self.answers.len()
            invariant
                i <= self.answers.len(),
                items@.len() == i,
                forall|k: int| 0 <= k < i ==> items@[k]@ == self.answers@[k].spec_to_json(),
            decreases self.answers.len() - i,
        {
            let a = self.answers[i].to_json();
            items.push(a);
            i += 1;
        }
        proof {
            lemma_items_view(items@);
            assert(items_view(items@) =~= answers_json(self.answers@));
        }
        let mut fields: Vec<JsonField> = Vec::new();
        fields.push(JsonField { key: "answers".to_string(), value: Json::Arr(items) });
        let r = Json::Obj(fields);
        proof {
            lemma_fields_view(r->Obj_0@);
            assert(fields_view(r->Obj_0@) =~= self.spec_to_json()->Obj_0);
        }
        r
    }
}

} // verus!
