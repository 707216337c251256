//! The envelope dispatcher: classifying raw server-sent envelopes into
//! typed domain events.
//!
//! Classification is total. A recognized envelope type whose properties
//! match that type's schema yields the matching event; a recognized type
//! with malformed properties yields `Unknown("<type> (parse error)")`; an
//! unrecognized type yields `Unknown` with the type string verbatim.

use vstd::prelude::*;
use crate::json::{fields_view, items_view, lemma_items_view, obj_get, spec_get, str_eq, Json, JsonField, JsonV};
use crate::part::{
    get_opt_timespan, opt_tool_state_view, parse_part, spec_opt_timespan, spec_parse_part, Part,
    PartV, TimeSpan,
};
use crate::schema::{
    get_def_obj, get_def_strings, get_def_u32, get_opt_json, get_opt_str, get_req_str,
    opt_json_view, opt_str_view, spec_def_obj, spec_def_strings, spec_def_u32, spec_opt_json,
    spec_opt_str, spec_req_str, strings_view,
};

verus! {

/// Raw server-sent event envelope: a type discriminant plus an untyped
/// properties blob.
#[derive(Debug, PartialEq)]
pub struct SseEventEnvelope {
    pub event_type: String,
    pub properties: Json,
}

/// Mathematical view of an envelope.
pub struct SseEventEnvelopeV {
    pub event_type: Seq<char>,
    pub properties: JsonV,
}

impl View for SseEventEnvelope {
    type V = SseEventEnvelopeV;

    open spec fn view(&self) -> SseEventEnvelopeV {
        SseEventEnvelopeV { event_type: self.event_type@, properties: self.properties@ }
    }
}

/// Message header carried by `message.updated`.
#[derive(Debug, PartialEq)]
pub struct MessageInfo {
    pub id: String,
    pub role: String,
    pub session_id: Option<String>,
    pub time: Option<TimeSpan>,
}

/// Mathematical view of a `MessageInfo`.
pub struct MessageInfoV {
    pub id: Seq<char>,
    pub role: Seq<char>,
    pub session_id: Option<Seq<char>>,
    pub time: Option<TimeSpan>,
}

impl View for MessageInfo {
    type V = MessageInfoV;

    open spec fn view(&self) -> MessageInfoV {
        MessageInfoV {
            id: self.id@,
            role: self.role@,
            session_id: opt_str_view(self.session_id),
            time: self.time,
        }
    }
}

/// Session-level status reported by the server.
#[derive(Debug, PartialEq)]
pub enum SessionStatusPayload {
    Idle,
    Busy,
    Retry { attempt: u32, message: Option<String> },
}

/// Mathematical view of a `SessionStatusPayload`.
pub enum SessionStatusPayloadV {
    Idle,
    Busy,
    Retry { attempt: u32, message: Option<Seq<char>> },
}

impl View for SessionStatusPayload {
    type V = SessionStatusPayloadV;

    open spec fn view(&self) -> SessionStatusPayloadV {
        match self {
            SessionStatusPayload::Idle => SessionStatusPayloadV::Idle,
            SessionStatusPayload::Busy => SessionStatusPayloadV::Busy,
            SessionStatusPayload::Retry { attempt, message } => SessionStatusPayloadV::Retry {
                attempt: *attempt,
                message: opt_str_view(*message),
            },
        }
    }
}

/// A permission request, correlated with a later reply by its `id`.
#[derive(Debug, PartialEq)]
pub struct PermissionRequest {
    pub id: String,
    pub session_id: String,
    pub permission: Option<String>,
    pub patterns: Vec<String>,
    pub metadata: Vec<JsonField>,
}

/// Mathematical view of a `PermissionRequest`.
pub struct PermissionRequestV {
    pub id: Seq<char>,
    pub session_id: Seq<char>,
    pub permission: Option<Seq<char>>,
    pub patterns: Seq<Seq<char>>,
    pub metadata: Seq<(Seq<char>, JsonV)>,
}

impl View for PermissionRequest {
    type V = PermissionRequestV;

    open spec fn view(&self) -> PermissionRequestV {
        PermissionRequestV {
            id: self.id@,
            session_id: self.session_id@,
            permission: opt_str_view(self.permission),
            patterns: strings_view(self.patterns@),
            metadata: fields_view(self.metadata@),
        }
    }
}

/// An option offered by a question.
#[derive(Clone, Debug, PartialEq)]
pub struct QuestionOption {
    pub label: String,
    pub description: Option<String>,
}

/// Mathematical view of a `QuestionOption`.
pub struct QuestionOptionV {
    pub label: Seq<char>,
    pub description: Option<Seq<char>>,
}

impl View for QuestionOption {
    type V = QuestionOptionV;

    open spec fn view(&self) -> QuestionOptionV {
        QuestionOptionV { label: self.label@, description: opt_str_view(self.description) }
    }
}

/// One question within a question request.
#[derive(Clone, Debug, PartialEq)]
pub struct QuestionInfo {
    pub question: Option<String>,
    pub header: Option<String>,
    pub options: Vec<QuestionOption>,
}

/// Mathematical view of a `QuestionInfo`.
pub struct QuestionInfoV {
    pub question: Option<Seq<char>>,
    pub header: Option<Seq<char>>,
    pub options: Seq<QuestionOptionV>,
}

/// View of a vector of question options.
pub open spec fn options_view(v: Seq<QuestionOption>) -> Seq<QuestionOptionV> {
    Seq::new(v.len(), |i: int| v[i]@)
}

impl View for QuestionInfo {
    type V = QuestionInfoV;

    open spec fn view(&self) -> QuestionInfoV {
        QuestionInfoV {
            question: opt_str_view(self.question),
            header: opt_str_view(self.header),
            options: options_view(self.options@),
        }
    }
}

/// A question request, correlated with a later reply by its `id`.
#[derive(Debug, PartialEq)]
pub struct QuestionRequest {
    pub id: String,
    pub session_id: String,
    pub questions: Vec<QuestionInfo>,
}

/// Mathematical view of a `QuestionRequest`.
pub struct QuestionRequestV {
    pub id: Seq<char>,
    pub session_id: Seq<char>,
    pub questions: Seq<QuestionInfoV>,
}

/// View of a vector of questions.
pub open spec fn questions_view(v: Seq<QuestionInfo>) -> Seq<QuestionInfoV> {
    Seq::new(v.len(), |i: int| v[i]@)
}

impl View for QuestionRequest {
    type V = QuestionRequestV;

    open spec fn view(&self) -> QuestionRequestV {
        QuestionRequestV {
            id: self.id@,
            session_id: self.session_id@,
            questions: questions_view(self.questions@),
        }
    }
}

/// A classified domain event, one variant per recognized envelope type,
/// plus the explicit `Unknown` fallback.
#[derive(Debug, PartialEq)]
pub enum SseEvent {
    MessageUpdated { info: Option<MessageInfo> },
    MessagePartUpdated { part: Part, delta: Option<String> },
    SessionIdle { session_id: String },
    SessionError { session_id: Option<String>, error: Option<Json> },
    SessionStatus { session_id: String, status: SessionStatusPayload },
    PermissionAsked(PermissionRequest),
    PermissionReplied { session_id: String, request_id: String, reply: String },
    QuestionAsked(QuestionRequest),
    QuestionReplied { session_id: String, request_id: String },
    Unknown(String),
}

/// Mathematical view of a classified event.
pub enum SseEventV {
    MessageUpdated { info: Option<MessageInfoV> },
    MessagePartUpdated { part: PartV, delta: Option<Seq<char>> },
    SessionIdle { session_id: Seq<char> },
    SessionError { session_id: Option<Seq<char>>, error: Option<JsonV> },
    SessionStatus { session_id: Seq<char>, status: SessionStatusPayloadV },
    PermissionAsked(PermissionRequestV),
    PermissionReplied { session_id: Seq<char>, request_id: Seq<char>, reply: Seq<char> },
    QuestionAsked(QuestionRequestV),
    QuestionReplied { session_id: Seq<char>, request_id: Seq<char> },
    Unknown(Seq<char>),
}

/// View of an optional message header.
pub open spec fn opt_info_view(o: Option<MessageInfo>) -> Option<MessageInfoV> {
    match o {
        Some(m) => Some(m@),
        None => None,
    }
}

impl View for SseEvent {
    type V = SseEventV;

    open spec fn view(&self) -> SseEventV {
        match self {
            SseEvent::MessageUpdated { info } => SseEventV::MessageUpdated {
                info: opt_info_view(*info),
            },
            SseEvent::MessagePartUpdated { part, delta } => SseEventV::MessagePartUpdated {
                part: part@,
                delta: opt_str_view(*delta),
            },
            SseEvent::SessionIdle { session_id } => SseEventV::SessionIdle {
                session_id: session_id@,
            },
            SseEvent::SessionError { session_id, error } => SseEventV::SessionError {
                session_id: opt_str_view(*session_id),
                error: opt_json_view(*error),
            },
            SseEvent::SessionStatus { session_id, status } => SseEventV::SessionStatus {
                session_id: session_id@,
                status: status@,
            },
            SseEvent::PermissionAsked(p) => SseEventV::PermissionAsked(p@),
            SseEvent::PermissionReplied { session_id, request_id, reply } => {
                SseEventV::PermissionReplied {
                    session_id: session_id@,
                    request_id: request_id@,
                    reply: reply@,
                }
            },
            SseEvent::QuestionAsked(q) => SseEventV::QuestionAsked(q@),
            SseEvent::QuestionReplied { session_id, request_id } => SseEventV::QuestionReplied {
                session_id: session_id@,
                request_id: request_id@,
            },
            SseEvent::Unknown(t) => SseEventV::Unknown(t@),
        }
    }
}

/// A message header read from a JSON value.
pub open spec fn spec_parse_message_info(j: JsonV) -> Option<MessageInfoV> {
    match j {
        JsonV::Obj(f) => match (
            spec_req_str(f, "id"@),
            spec_req_str(f, "role"@),
            spec_opt_str(f, "sessionID"@),
            spec_opt_timespan(f, "time"@),
        ) {
            (Some(id), Some(role), Some(session_id), Some(time)) => Some(
                MessageInfoV { id, role, session_id, time },
            ),
            _ => None,
        },
        _ => None,
    }
}

/// The properties of a `message.updated` envelope: an object whose `info`
/// field, when present and not `null`, is a well-formed message header.
/// A missing or `null` `info` reads as absent; anything else malformed
/// fails the schema.
pub open spec fn spec_parse_message_updated(props: JsonV) -> Option<Option<MessageInfoV>> {
    match props {
        JsonV::Obj(f) => match spec_get(f, "info"@) {
            None => Some(None),
            Some(JsonV::Null) => Some(None),
            Some(v) => match spec_parse_message_info(v) {
                Some(m) => Some(Some(m)),
                None => None,
            },
        },
        _ => None,
    }
}

/// The properties of a `message.part.updated` envelope.
pub open spec fn spec_parse_part_updated(props: JsonV) -> Option<(PartV, Option<Seq<char>>)> {
    match props {
        JsonV::Obj(f) => match spec_get(f, "part"@) {
            Some(v) => match (spec_parse_part(v), spec_opt_str(f, "delta"@)) {
                (Some(part), Some(delta)) => Some((part, delta)),
                _ => None,
            },
            None => None,
        },
        _ => None,
    }
}

/// The properties of a `session.idle` envelope: the owning session.
pub open spec fn spec_parse_session_id(props: JsonV) -> Option<Seq<char>> {
    match props {
        JsonV::Obj(f) => spec_req_str(f, "sessionID"@),
        _ => None,
    }
}

/// The properties of a `session.error` envelope: an optional owning
/// session and an optional raw error payload. An ill-typed `sessionID`,
/// or non-object properties, fails the schema.
pub open spec fn spec_parse_session_error(props: JsonV) -> Option<
    (Option<Seq<char>>, Option<JsonV>),
> {
    match props {
        JsonV::Obj(f) => match spec_opt_str(f, "sessionID"@) {
            Some(session_id) => Some((session_id, spec_opt_json(f, "error"@))),
            None => None,
        },
        _ => None,
    }
}

/// A session status payload read from a JSON value, tagged by its `type`
/// string: `idle`, `busy`, or `retry` with an attempt counter.
pub open spec fn spec_parse_status_payload(j: JsonV) -> Option<SessionStatusPayloadV> {
    match j {
        JsonV::Obj(f) => match spec_get(f, "type"@) {
            Some(JsonV::Str(tag)) => if tag == "idle"@ {
                Some(SessionStatusPayloadV::Idle)
            } else if tag == "busy"@ {
                Some(SessionStatusPayloadV::Busy)
            } else if tag == "retry"@ {
                match (spec_def_u32(f, "attempt"@), spec_opt_str(f, "message"@)) {
                    (Some(attempt), Some(message)) => Some(
                        SessionStatusPayloadV::Retry { attempt, message },
                    ),
                    _ => None,
                }
            } else {
                None
            },
            _ => None,
        },
        _ => None,
    }
}

/// The properties of a `session.status` envelope.
pub open spec fn spec_parse_session_status(props: JsonV) -> Option<
    (Seq<char>, SessionStatusPayloadV),
> {
    match props {
        JsonV::Obj(f) => match (spec_req_str(f, "sessionID"@), spec_get(f, "status"@)) {
            (Some(session_id), Some(v)) => match spec_parse_status_payload(v) {
                Some(status) => Some((session_id, status)),
                None => None,
            },
            _ => None,
        },
        _ => None,
    }
}

/// The properties of a `permission.asked` envelope.
pub open spec fn spec_parse_permission_request(props: JsonV) -> Option<PermissionRequestV> {
    match props {
        JsonV::Obj(f) => match (
            spec_req_str(f, "id"@),
            spec_req_str(f, "sessionID"@),
            spec_opt_str(f, "permission"@),
            spec_def_strings(f, "patterns"@),
            spec_def_obj(f, "metadata"@),
        ) {
            (Some(id), Some(session_id), Some(permission), Some(patterns), Some(metadata)) => Some(
                PermissionRequestV { id, session_id, permission, patterns, metadata },
            ),
            _ => None,
        },
        _ => None,
    }
}

/// The properties of a `permission.replied` envelope.
pub open spec fn spec_parse_permission_replied(props: JsonV) -> Option<
    (Seq<char>, Seq<char>, Seq<char>),
> {
    match props {
        JsonV::Obj(f) => match (
            spec_req_str(f, "sessionID"@),
            spec_req_str(f, "requestID"@),
            spec_req_str(f, "reply"@),
        ) {
            (Some(session_id), Some(request_id), Some(reply)) => Some(
                (session_id, request_id, reply),
            ),
            _ => None,
        },
        _ => None,
    }
}

/// A question option read from a JSON value.
pub open spec fn spec_parse_question_option(j: JsonV) -> Option<QuestionOptionV> {
    match j {
        JsonV::Obj(f) => match (spec_req_str(f, "label"@), spec_opt_str(f, "description"@)) {
            (Some(label), Some(description)) => Some(QuestionOptionV { label, description }),
            _ => None,
        },
        _ => None,
    }
}

/// Whether every element of a JSON array is a well-formed question option.
pub open spec fn all_options(items: Seq<JsonV>) -> bool {
    forall|i: int| 0 <= i < items.len() ==> spec_parse_question_option(#[trigger] items[i]) is Some
}

/// A list-of-options field that defaults to the empty list when missing.
pub open spec fn spec_def_options(fields: Seq<(Seq<char>, JsonV)>, key: Seq<char>) -> Option<
    Seq<QuestionOptionV>,
> {
    match spec_get(fields, key) {
        None => Some(Seq::empty()),
        Some(JsonV::Arr(items)) => if all_options(items) {
            Some(Seq::new(items.len(), |i: int| spec_parse_question_option(items[i])->0))
        } else {
            None
        },
        Some(_) => None,
    }
}

/// A question read from a JSON value.
pub open spec fn spec_parse_question_info(j: JsonV) -> Option<QuestionInfoV> {
    match j {
        JsonV::Obj(f) => match (
            spec_opt_str(f, "question"@),
            spec_opt_str(f, "header"@),
            spec_def_options(f, "options"@),
        ) {
            (Some(question), Some(header), Some(options)) => Some(
                QuestionInfoV { question, header, options },
            ),
            _ => None,
        },
        _ => None,
    }
}

/// Whether every element of a JSON array is a well-formed question.
pub open spec fn all_questions(items: Seq<JsonV>) -> bool {
    forall|i: int| 0 <= i < items.len() ==> spec_parse_question_info(#[trigger] items[i]) is Some
}

/// A list-of-questions field that defaults to the empty list when missing.
pub open spec fn spec_def_questions(fields: Seq<(Seq<char>, JsonV)>, key: Seq<char>) -> Option<
    Seq<QuestionInfoV>,
> {
    match spec_get(fields, key) {
        None => Some(Seq::empty()),
        Some(JsonV::Arr(items)) => if all_questions(items) {
            Some(Seq::new(items.len(), |i: int| spec_parse_question_info(items[i])->0))
        } else {
            None
        },
        Some(_) => None,
    }
}

/// The properties of a `question.asked` envelope.
pub open spec fn spec_parse_question_request(props: JsonV) -> Option<QuestionRequestV> {
    match props {
        JsonV::Obj(f) => match (
            spec_req_str(f, "id"@),
            spec_req_str(f, "sessionID"@),
            spec_def_questions(f, "questions"@),
        ) {
            (Some(id), Some(session_id), Some(questions)) => Some(
                QuestionRequestV { id, session_id, questions },
            ),
            _ => None,
        },
        _ => None,
    }
}

/// The properties of a `question.replied` envelope.
pub open spec fn spec_parse_question_replied(props: JsonV) -> Option<(Seq<char>, Seq<char>)> {
    match props {
        JsonV::Obj(f) => match (spec_req_str(f, "sessionID"@), spec_req_str(f, "requestID"@)) {
            (Some(session_id), Some(request_id)) => Some((session_id, request_id)),
            _ => None,
        },
        _ => None,
    }
}

/// What classification returns for a given envelope.
pub open spec fn spec_classify(env: SseEventEnvelopeV) -> SseEventV {
    let t = env.event_type;
    let props = env.properties;
    if t == "message.updated"@ {
        match spec_parse_message_updated(props) {
            Some(info) => SseEventV::MessageUpdated { info },
            None => SseEventV::Unknown("message.updated (parse error)"@),
        }
    } else if t == "message.part.updated"@ {
        match spec_parse_part_updated(props) {
            Some((part, delta)) => SseEventV::MessagePartUpdated { part, delta },
            None => SseEventV::Unknown("message.part.updated (parse error)"@),
        }
    } else if t == "session.idle"@ {
        match spec_parse_session_id(props) {
            Some(session_id) => SseEventV::SessionIdle { session_id },
            None => SseEventV::Unknown("session.idle (parse error)"@),
        }
    } else if t == "session.error"@ {
        match spec_parse_session_error(props) {
            Some((session_id, error)) => SseEventV::SessionError { session_id, error },
            None => SseEventV::Unknown("session.error (parse error)"@),
        }
    } else if t == "session.status"@ {
        match spec_parse_session_status(props) {
            Some((session_id, status)) => SseEventV::SessionStatus { session_id, status },
            None => SseEventV::Unknown("session.status (parse error)"@),
        }
    } else if t == "permission.asked"@ {
        match spec_parse_permission_request(props) {
            Some(p) => SseEventV::PermissionAsked(p),
            None => SseEventV::Unknown("permission.asked (parse error)"@),
        }
    } else if t == "permission.replied"@ {
        match spec_parse_permission_replied(props) {
            Some((session_id, request_id, reply)) => SseEventV::PermissionReplied {
                session_id,
                request_id,
                reply,
            },
            None => SseEventV::Unknown("permission.replied (parse error)"@),
        }
    } else if t == "question.asked"@ {
        match spec_parse_question_request(props) {
            Some(q) => SseEventV::QuestionAsked(q),
            None => SseEventV::Unknown("question.asked (parse error)"@),
        }
    } else if t == "question.replied"@ {
        match spec_parse_question_replied(props) {
            Some((session_id, request_id)) => SseEventV::QuestionReplied {
                session_id,
                request_id,
            },
            None => SseEventV::Unknown("question.replied (parse error)"@),
        }
    } else {
        SseEventV::Unknown(t)
    }
}

/// The envelope types this layer recognizes.
pub open spec fn recognized(event_type: Seq<char>) -> bool {
    ||| event_type == "message.updated"@
    ||| event_type == "message.part.updated"@
    ||| event_type == "session.idle"@
    ||| event_type == "session.error"@
    ||| event_type == "session.status"@
    ||| event_type == "permission.asked"@
    ||| event_type == "permission.replied"@
    ||| event_type == "question.asked"@
    ||| event_type == "question.replied"@
}

/// An envelope whose type is not recognized classifies as `Unknown`, with
/// the original type string preserved verbatim.
pub proof fn lemma_unrecognized_is_unknown(env: SseEventEnvelopeV)
    requires
        !recognized(env.event_type),
    ensures
        spec_classify(env) == SseEventV::Unknown(env.event_type),
{
}

/// An envelope with a recognized type whose properties do not match that
/// type's schema classifies as `Unknown("<type> (parse error)")` — never a
/// propagated failure.
pub proof fn lemma_malformed_is_parse_error(env: SseEventEnvelopeV)
    ensures
        env.event_type == "message.updated"@ && spec_parse_message_updated(
            env.properties,
        ) is None ==> spec_classify(env) == SseEventV::Unknown("message.updated (parse error)"@),
        env.event_type == "session.error"@ && spec_parse_session_error(env.properties) is None
            ==> spec_classify(env) == SseEventV::Unknown("session.error (parse error)"@),
        env.event_type == "message.part.updated"@ && spec_parse_part_updated(
            env.properties,
        ) is None ==> spec_classify(env) == SseEventV::Unknown(
            "message.part.updated (parse error)"@,
        ),
        env.event_type == "session.idle"@ && spec_parse_session_id(env.properties) is None
            ==> spec_classify(env) == SseEventV::Unknown("session.idle (parse error)"@),
        env.event_type == "session.status"@ && spec_parse_session_status(env.properties) is None
            ==> spec_classify(env) == SseEventV::Unknown("session.status (parse error)"@),
        env.event_type == "permission.asked"@ && spec_parse_permission_request(
            env.properties,
        ) is None ==> spec_classify(env) == SseEventV::Unknown("permission.asked (parse error)"@),
        env.event_type == "permission.replied"@ && spec_parse_permission_replied(
            env.properties,
        ) is None ==> spec_classify(env) == SseEventV::Unknown(
            "permission.replied (parse error)"@,
        ),
        env.event_type == "question.asked"@ && spec_parse_question_request(
            env.properties,
        ) is None ==> spec_classify(env) == SseEventV::Unknown("question.asked (parse error)"@),
        env.event_type == "question.replied"@ && spec_parse_question_replied(
            env.properties,
        ) is None ==> spec_classify(env) == SseEventV::Unknown("question.replied (parse error)"@),
{
    reveal_strlit("message.updated");
    reveal_strlit("message.part.updated");
    reveal_strlit("session.idle");
    reveal_strlit("session.error");
    reveal_strlit("session.status");
    reveal_strlit("permission.asked");
    reveal_strlit("permission.replied");
    reveal_strlit("question.asked");
    reveal_strlit("question.replied");
    assert("message.updated"@.len() == 15 && "message.part.updated"@.len() == 20 && "session.idle"@
        .len() == 12 && "session.error"@.len() == 13 && "session.status"@.len() == 14
        && "permission.asked"@.len() == 16 && "permission.replied"@.len() == 18
        && "question.asked"@.len() == 14 && "question.replied"@.len() == 16);
    assert("session.status"@[0] == 's' && "question.asked"@[0] == 'q' && "permission.asked"@[0]
        == 'p' && "question.replied"@[0] == 'q');
    assert("session.status"@ != "question.asked"@);
    assert("permission.asked"@ != "question.replied"@);
}

/// Read a message header from a JSON value.
pub fn parse_message_info(j: &Json) -> (r: Option<MessageInfo>)
    ensures
        match r {
            Some(m) => spec_parse_message_info(j@) == Some(m@),
            None => spec_parse_message_info(j@) is None,
        },
{
    let f = match j {
        Json::Obj(f) => f,
        _ => {
            return None;
        },
    };
    let id = match get_req_str(f, "id") {
        Some(s) => s,
        None => {
            return None;
        },
    };
    let role = match get_req_str(f, "role") {
        Some(s) => s,
        None => {
            return None;
        },
    };
    let session_id = match get_opt_str(f, "sessionID") {
        Some(o) => o,
        None => {
            return None;
        },
    };
    let time = match get_opt_timespan(f, "time") {
        Some(o) => o,
        None => {
            return None;
        },
    };
    Some(MessageInfo { id, role, session_id, time })
}

/// The properties of a `message.updated` envelope.
fn parse_message_updated(props: &Json) -> (r: Option<Option<MessageInfo>>)
    ensures
        match r {
            Some(info) => spec_parse_message_updated(props@) == Some(opt_info_view(info)),
            None => spec_parse_message_updated(props@) is None,
        },
{
    let f = match props {
        Json::Obj(f) => f,
        _ => {
            return None;
        },
    };
    match obj_get(f, "info") {
        None => Some(None),
        Some(Json::Null) => Some(None),
        Some(v) => match parse_message_info(v) {
            Some(m) => Some(Some(m)),
            None => None,
        },
    }
}

/// The properties of a `message.part.updated` envelope.
fn parse_part_updated(props: &Json) -> (r: Option<(Part, Option<String>)>)
    ensures
        match r {
            Some(p) => spec_parse_part_updated(props@) == Some((p.0@, opt_str_view(p.1))),
            None => spec_parse_part_updated(props@) is None,
        },
{
    let f = match props {
        Json::Obj(f) => f,
        _ => {
            return None;
        },
    };
    let part = match obj_get(f, "part") {
        Some(v) => match parse_part(v) {
            Some(p) => p,
            None => {
                return None;
            },
        },
        None => {
            return None;
        },
    };
    let delta = match get_opt_str(f, "delta") {
        Some(o) => o,
        None => {
            return None;
        },
    };
    Some((part, delta))
}

/// The owning session of a `session.idle` envelope.
fn parse_session_id(props: &Json) -> (r: Option<String>)
    ensures
        match r {
            Some(s) => spec_parse_session_id(props@) == Some(s@),
            None => spec_parse_session_id(props@) is None,
        },
{
    match props {
        Json::Obj(f) => get_req_str(f, "sessionID"),
        _ => None,
    }
}

/// The properties of a `session.error` envelope.
fn parse_session_error(props: &Json) -> (r: Option<(Option<String>, Option<Json>)>)
    ensures
        match r {
            Some(p) => spec_parse_session_error(props@) == Some(
                (opt_str_view(p.0), opt_json_view(p.1)),
            ),
            None => spec_parse_session_error(props@) is None,
        },
{
    let f = match props {
        Json::Obj(f) => f,
        _ => {
            return None;
        },
    };
    match get_opt_str(f, "sessionID") {
        Some(session_id) => {
            let error = get_opt_json(f, "error");
            Some((session_id, error))
        },
        None => None,
    }
}

/// Read a session status payload from a JSON value.
pub fn parse_status_payload(j: &Json) -> (r: Option<SessionStatusPayload>)
    ensures
        match r {
            Some(p) => spec_parse_status_payload(j@) == Some(p@),
            None => spec_parse_status_payload(j@) is None,
        },
{
    let f = match j {
        Json::Obj(f) => f,
        _ => {
            return None;
        },
    };
    let tag = match obj_get(f, "type") {
        Some(Json::Str(s)) => s,
        _ => {
            return None;
        },
    };
    if str_eq(tag.as_str(), "idle") {
        Some(SessionStatusPayload::Idle)
    } else if str_eq(tag.as_str(), "busy") {
        Some(SessionStatusPayload::Busy)
    } else if str_eq(tag.as_str(), "retry") {
        let attempt = match get_def_u32(f, "attempt") {
            Some(n) => n,
            None => {
                return None;
            },
        };
        let message = match get_opt_str(f, "message") {
            Some(o) => o,
            None => {
                return None;
            },
        };
        Some(SessionStatusPayload::Retry { attempt, message })
    } else {
        None
    }
}

/// The properties of a `session.status` envelope.
fn parse_session_status(props: &Json) -> (r: Option<(String, SessionStatusPayload)>)
    ensures
        match r {
            Some(p) => spec_parse_session_status(props@) == Some((p.0@, p.1@)),
            None => spec_parse_session_status(props@) is None,
        },
{
    let f = match props {
        Json::Obj(f) => f,
        _ => {
            return None;
        },
    };
    let session_id = match get_req_str(f, "sessionID") {
        Some(s) => s,
        None => {
            return None;
        },
    };
    let status = match obj_get(f, "status") {
        Some(v) => match parse_status_payload(v) {
            Some(p) => p,
            None => {
                return None;
            },
        },
        None => {
            return None;
        },
    };
    Some((session_id, status))
}

/// Read a permission request from a JSON value.
pub fn parse_permission_request(props: &Json) -> (r: Option<PermissionRequest>)
    ensures
        match r {
            Some(p) => spec_parse_permission_request(props@) == Some(p@),
            None => spec_parse_permission_request(props@) is None,
        },
{
    let f = match props {
        Json::Obj(f) => f,
        _ => {
            return None;
        },
    };
    let id = match get_req_str(f, "id") {
        Some(s) => s,
        None => {
            return None;
        },
    };
    let session_id = match get_req_str(f, "sessionID") {
        Some(s) => s,
        None => {
            return None;
        },
    };
    let permission = match get_opt_str(f, "permission") {
        Some(o) => o,
        None => {
            return None;
        },
    };
    let patterns = match get_def_strings(f, "patterns") {
        Some(v) => v,
        None => {
            return None;
        },
    };
    let metadata = match get_def_obj(f, "metadata") {
        Some(v) => v,
        None => {
            return None;
        },
    };
    Some(PermissionRequest { id, session_id, permission, patterns, metadata })
}

/// The properties of a `permission.replied` envelope.
fn parse_permission_replied(props: &Json) -> (r: Option<(String, String, String)>)
    ensures
        match r {
            Some(p) => spec_parse_permission_replied(props@) == Some((p.0@, p.1@, p.2@)),
            None => spec_parse_permission_replied(props@) is None,
        },
{
    let f = match props {
        Json::Obj(f) => f,
        _ => {
            return None;
        },
    };
    let session_id = match get_req_str(f, "sessionID") {
        Some(s) => s,
        None => {
            return None;
        },
    };
    let request_id = match get_req_str(f, "requestID") {
        Some(s) => s,
        None => {
            return None;
        },
    };
    let reply = match get_req_str(f, "reply") {
        Some(s) => s,
        None => {
            return None;
        },
    };
    Some((session_id, request_id, reply))
}

/// Read a question option from a JSON value.
pub fn parse_question_option(j: &Json) -> (r: Option<QuestionOption>)
    ensures
        match r {
            Some(o) => spec_parse_question_option(j@) == Some(o@),
            None => spec_parse_question_option(j@) is None,
        },
{
    let f = match j {
        Json::Obj(f) => f,
        _ => {
            return None;
        },
    };
    let label = match get_req_str(f, "label") {
        Some(s) => s,
        None => {
            return None;
        },
    };
    let description = match get_opt_str(f, "description") {
        Some(o) => o,
        None => {
            return None;
        },
    };
    Some(QuestionOption { label, description })
}

/// Read a defaulted list-of-options field of an object.
fn get_def_options(fields: &Vec<JsonField>, key: &str) -> (r: Option<Vec<QuestionOption>>)
    ensures
        match r {
            Some(v) => spec_def_options(fields_view(fields@), key@) == Some(options_view(v@)),
            None => spec_def_options(fields_view(fields@), key@) is None,
        },
{
    match obj_get(fields, key) {
        None => {
            let out: Vec<QuestionOption> = Vec::new();
            proof {
                assert(options_view(out@) =~= Seq::<QuestionOptionV>::empty());
            }
            Some(out)
        },
        Some(Json::Arr(items)) => {
            let ghost iv = items_view(items@);
            proof {
                lemma_items_view(items@);
                assert(spec_get(fields_view(fields@), key@) == Some(JsonV::Arr(iv)));
            }
            let mut out: Vec<QuestionOption> = Vec::new();
            let mut i: usize = 0;
            while i < items.len()
                invariant
                    i <= items.len(),
                    iv == items_view(items@),
                    iv.len() == items@.len(),
                    spec_get(fields_view(fields@), key@) == Some(JsonV::Arr(iv)),
                    forall|k: int| 0 <= k < items@.len() ==> iv[k] == items@[k]@,
                    out@.len() == i,
                    forall|k: int|
                        0 <= k < i ==> (#[trigger] spec_parse_question_option(iv[k])) is Some
                            && out@[k]@ == spec_parse_question_option(iv[k])->0,
                decreases items.len() - i,
            {
                let item = &items[i];
                proof {
                    assert(item@ == iv[i as int]);
                }
                let o = match parse_question_option(item) {
                    Some(o) => o,
                    None => {
                        proof {
                            assert(spec_parse_question_option(iv[i as int]) is None);
                            assert(!all_options(iv));
                        }
                        return None;
                    },
                };
                proof {
                    assert(spec_parse_question_option(iv[i as int]) == Some(o@));
                }
                out.push(o);
                i += 1;
            }
            proof {
                assert(all_options(iv));
                assert(options_view(out@) =~= Seq::new(
                    iv.len(),
                    |k: int| spec_parse_question_option(iv[k])->0,
                ));
            }
            Some(out)
        },
        Some(_) => None,
    }
}

/// Read a question from a JSON value.
pub fn parse_question_info(j: &Json) -> (r: Option<QuestionInfo>)
    ensures
        match r {
            Some(q) => spec_parse_question_info(j@) == Some(q@),
            None => spec_parse_question_info(j@) is None,
        },
{
    let f = match j {
        Json::Obj(f) => f,
        _ => {
            return None;
        },
    };
    let question = match get_opt_str(f, "question") {
        Some(o) => o,
        None => {
            return None;
        },
    };
    let header = match get_opt_str(f, "header") {
        Some(o) => o,
        None => {
            return None;
        },
    };
    let options = match get_def_options(f, "options") {
        Some(v) => v,
        None => {
            return None;
        },
    };
    Some(QuestionInfo { question, header, options })
}

/// Read a defaulted list-of-questions field of an object.
fn get_def_questions(fields: &Vec<JsonField>, key: &str) -> (r: Option<Vec<QuestionInfo>>)
    ensures
        match r {
            Some(v) => spec_def_questions(fields_view(fields@), key@) == Some(questions_view(v@)),
            None => spec_def_questions(fields_view(fields@), key@) is None,
        },
{
    match obj_get(fields, key) {
        None => {
            let out: Vec<QuestionInfo> = Vec::new();
            proof {
                assert(questions_view(out@) =~= Seq::<QuestionInfoV>::empty());
            }
            Some(out)
        },
        Some(Json::Arr(items)) => {
            let ghost iv = items_view(items@);
            proof {
                lemma_items_view(items@);
                assert(spec_get(fields_view(fields@), key@) == Some(JsonV::Arr(iv)));
            }
            let mut out: Vec<QuestionInfo> = Vec::new();
            let mut i: usize = 0;
            while i < items.len()
                invariant
                    i <= items.len(),
                    iv == items_view(items@),
                    iv.len() == items@.len(),
                    spec_get(fields_view(fields@), key@) == Some(JsonV::Arr(iv)),
                    forall|k: int| 0 <= k < items@.len() ==> iv[k] == items@[k]@,
                    out@.len() == i,
                    forall|k: int|
                        0 <= k < i ==> (#[trigger] spec_parse_question_info(iv[k])) is Some
                            && out@[k]@ == spec_parse_question_info(iv[k])->0,
                decreases items.len() - i,
            {
                let item = &items[i];
                proof {
                    assert(item@ == iv[i as int]);
                }
                let q = match parse_question_info(item) {
                    Some(q) => q,
                    None => {
                        proof {
                            assert(spec_parse_question_info(iv[i as int]) is None);
                            assert(!all_questions(iv));
                        }
                        return None;
                    },
                };
                proof {
                    assert(spec_parse_question_info(iv[i as int]) == Some(q@));
                }
                out.push(q);
                i += 1;
            }
            proof {
                assert(all_questions(iv));
                assert(questions_view(out@) =~= Seq::new(
                    iv.len(),
                    |k: int| spec_parse_question_info(iv[k])->0,
                ));
            }
            Some(out)
        },
        Some(_) => None,
    }
}

/// Read a question request from a JSON value.
pub fn parse_question_request(props: &Json) -> (r: Option<QuestionRequest>)
    ensures
        match r {
            Some(q) => spec_parse_question_request(props@) == Some(q@),
            None => spec_parse_question_request(props@) is None,
        },
{
    let f = match props {
        Json::Obj(f) => f,
        _ => {
            return None;
        },
    };
    let id = match get_req_str(f, "id") {
        Some(s) => s,
        None => {
            return None;
        },
    };
    let session_id = match get_req_str(f, "sessionID") {
        Some(s) => s,
        None => {
            return None;
        },
    };
    let questions = match get_def_questions(f, "questions") {
        Some(v) => v,
        None => {
            return None;
        },
    };
    Some(QuestionRequest { id, session_id, questions })
}

/// The properties of a `question.replied` envelope.
fn parse_question_replied(props: &Json) -> (r: Option<(String, String)>)
    ensures
        match r {
            Some(p) => spec_parse_question_replied(props@) == Some((p.0@, p.1@)),
            None => spec_parse_question_replied(props@) is None,
        },
{
    let f = match props {
        Json::Obj(f) => f,
        _ => {
            return None;
        },
    };
    let session_id = match get_req_str(f, "sessionID") {
        Some(s) => s,
        None => {
            return None;
        },
    };
    let request_id = match get_req_str(f, "requestID") {
        Some(s) => s,
        None => {
            return None;
        },
    };
    Some((session_id, request_id))
}

impl SseEvent {
    /// Classify an envelope. Total: unrecognized event types and malformed
    /// properties classify as `Unknown` rather than failing.
    pub fn from_envelope(envelope: SseEventEnvelope) -> (r: Self)
        ensures
            r@ == spec_classify(envelope@),
    {
        let SseEventEnvelope { event_type, properties } = envelope;
        let props = &properties;
        if str_eq(event_type.as_str(), "message.updated") {
            match parse_message_updated(props) {
                Some(info) => SseEvent::MessageUpdated { info },
                None => SseEvent::Unknown("message.updated (parse error)".to_string()),
            }
        } else if str_eq(event_type.as_str(), "message.part.updated") {
            match parse_part_updated(props) {
                Some((part, delta)) => SseEvent::MessagePartUpdated { part, delta },
                None => SseEvent::Unknown("message.part.updated (parse error)".to_string()),
            }
        } else if str_eq(event_type.as_str(), "session.idle") {
            match parse_session_id(props) {
                Some(session_id) => SseEvent::SessionIdle { session_id },
                None => SseEvent::Unknown("session.idle (parse error)".to_string()),
            }
        } else if str_eq(event_type.as_str(), "session.error") {
            match parse_session_error(props) {
                Some((session_id, error)) => SseEvent::SessionError { session_id, error },
                None => SseEvent::Unknown("session.error (parse error)".to_string()),
            }
        } else if str_eq(event_type.as_str(), "session.status") {
            match parse_session_status(props) {
                Some((session_id, status)) => SseEvent::SessionStatus { session_id, status },
                None => SseEvent::Unknown("session.status (parse error)".to_string()),
            }
        } else if str_eq(event_type.as_str(), "permission.asked") {
            match parse_permission_request(props) {
                Some(p) => SseEvent::PermissionAsked(p),
                None => SseEvent::Unknown("permission.asked (parse error)".to_string()),
            }
        } else if str_eq(event_type.as_str(), "permission.replied") {
            match parse_permission_replied(props) {
                Some((session_id, request_id, reply)) => SseEvent::PermissionReplied {
                    session_id,
                    request_id,
                    reply,
                },
                None => SseEvent::Unknown("permission.replied (parse error)".to_string()),
            }
        } else if str_eq(event_type.as_str(), "question.asked") {
            match parse_question_request(props) {
                Some(q) => SseEvent::QuestionAsked(q),
                None => SseEvent::Unknown("question.asked (parse error)".to_string()),
            }
        } else if str_eq(event_type.as_str(), "question.replied") {
            match parse_question_replied(props) {
                Some((session_id, request_id)) => SseEvent::QuestionReplied {
                    session_id,
                    request_id,
                },
                None => SseEvent::Unknown("question.replied (parse error)".to_string()),
            }
        } else {
            SseEvent::Unknown(event_type)
        }
    }
}

} // verus!
