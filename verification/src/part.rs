//! Message content parts and the tool execution lifecycle.
//!
//! A part is a fragment of a message, discriminated by an embedded `type`
//! string; a tool part may carry a tool execution state, discriminated by a
//! nested `status` string. An unrecognized part type reads as `Other`; an
//! unrecognized status makes the whole part fail to read, so the envelope
//! that carried it falls back to its parse-error classification.

use vstd::prelude::*;
use crate::json::{fields_view, obj_get, spec_get, str_eq, Json, JsonField, JsonNum, JsonV};
use crate::schema::{
    get_def_str, get_opt_json, get_opt_num, get_opt_obj, get_opt_str, get_req_str, opt_json_view,
    opt_obj_view, opt_str_view, spec_def_str, spec_opt_json, spec_opt_num, spec_opt_obj,
    spec_opt_str, spec_req_str,
};

verus! {

/// Start and end instants of a message or part, as reported by the server.
/// Numbers on the wire may be fractional; they are kept as `JsonNum`.
#[derive(Clone, Copy, Debug, PartialEq)]
pub struct TimeSpan {
    pub start: Option<JsonNum>,
    pub end: Option<JsonNum>,
}

/// One tool invocation's progress, tagged by its `status` field.
/// Each state carries only that state's payload.
#[derive(Debug, PartialEq)]
pub enum ToolState {
    Pending { input: Option<Json> },
    Running { input: Option<Json>, title: Option<String>, metadata: Option<Vec<JsonField>> },
    Completed {
        input: Option<Json>,
        output: Option<String>,
        title: Option<String>,
        metadata: Option<Vec<JsonField>>,
    },
    Error { input: Option<Json>, error: Option<String> },
}

/// Mathematical view of a `ToolState`.
pub enum ToolStateV {
    Pending { input: Option<JsonV> },
    Running {
        input: Option<JsonV>,
        title: Option<Seq<char>>,
        metadata: Option<Seq<(Seq<char>, JsonV)>>,
    },
    Completed {
        input: Option<JsonV>,
        output: Option<Seq<char>>,
        title: Option<Seq<char>>,
        metadata: Option<Seq<(Seq<char>, JsonV)>>,
    },
    Error { input: Option<JsonV>, error: Option<Seq<char>> },
}

impl View for ToolState {
    type V = ToolStateV;

    open spec fn view(&self) -> ToolStateV {
        match self {
            ToolState::Pending { input } => ToolStateV::Pending { input: opt_json_view(*input) },
            ToolState::Running { input, title, metadata } => ToolStateV::Running {
                input: opt_json_view(*input),
                title: opt_str_view(*title),
                metadata: opt_obj_view(*metadata),
            },
            ToolState::Completed { input, output, title, metadata } => ToolStateV::Completed {
                input: opt_json_view(*input),
                output: opt_str_view(*output),
                title: opt_str_view(*title),
                metadata: opt_obj_view(*metadata),
            },
            ToolState::Error { input, error } => ToolStateV::Error {
                input: opt_json_view(*input),
                error: opt_str_view(*error),
            },
        }
    }
}

/// A content part within a message, tagged by its `type` field.
#[derive(Debug, PartialEq)]
pub enum Part {
    Text {
        id: String,
        session_id: Option<String>,
        message_id: Option<String>,
        text: String,
        time: Option<TimeSpan>,
    },
    Tool {
        id: String,
        session_id: Option<String>,
        message_id: Option<String>,
        call_id: Option<String>,
        tool: Option<String>,
        state: Option<ToolState>,
    },
    StepStart { id: String, session_id: Option<String> },
    StepFinish { id: String, session_id: Option<String>, reason: Option<String> },
    /// Catch-all for part types this client does not process.
    Other,
}

/// Mathematical view of a `Part`.
pub enum PartV {
    Text {
        id: Seq<char>,
        session_id: Option<Seq<char>>,
        message_id: Option<Seq<char>>,
        text: Seq<char>,
        time: Option<TimeSpan>,
    },
    Tool {
        id: Seq<char>,
        session_id: Option<Seq<char>>,
        message_id: Option<Seq<char>>,
        call_id: Option<Seq<char>>,
        tool: Option<Seq<char>>,
        state: Option<ToolStateV>,
    },
    StepStart { id: Seq<char>, session_id: Option<Seq<char>> },
    StepFinish { id: Seq<char>, session_id: Option<Seq<char>>, reason: Option<Seq<char>> },
    Other,
}

/// View of an optional tool state.
pub open spec fn opt_tool_state_view(o: Option<ToolState>) -> Option<ToolStateV> {
    match o {
        Some(t) => Some(t@),
        None => None,
    }
}

impl View for Part {
    type V = PartV;

    open spec fn view(&self) -> PartV {
        match self {
            Part::Text { id, session_id, message_id, text, time } => PartV::Text {
                id: id@,
                session_id: opt_str_view(*session_id),
                message_id: opt_str_view(*message_id),
                text: text@,
                time: *time,
            },
            Part::Tool { id, session_id, message_id, call_id, tool, state } => PartV::Tool {
                id: id@,
                session_id: opt_str_view(*session_id),
                message_id: opt_str_view(*message_id),
                call_id: opt_str_view(*call_id),
                tool: opt_str_view(*tool),
                state: opt_tool_state_view(*state),
            },
            Part::StepStart { id, session_id } => PartV::StepStart {
                id: id@,
                session_id: opt_str_view(*session_id),
            },
            Part::StepFinish { id, session_id, reason } => PartV::StepFinish {
                id: id@,
                session_id: opt_str_view(*session_id),
                reason: opt_str_view(*reason),
            },
            Part::Other => PartV::Other,
        }
    }
}

/// A time span read from a JSON value: an object whose `start` and `end`
/// are optional numbers.
pub open spec fn spec_parse_timespan(j: JsonV) -> Option<TimeSpan> {
    match j {
        JsonV::Obj(f) => match (spec_opt_num(f, "start"@), spec_opt_num(f, "end"@)) {
            (Some(start), Some(end)) => Some(TimeSpan { start, end }),
            _ => None,
        },
        _ => None,
    }
}

/// An optional time-span field: missing or `null` reads as absent; any
/// other value must be a well-formed time span.
pub open spec fn spec_opt_timespan(fields: Seq<(Seq<char>, JsonV)>, key: Seq<char>) -> Option<
    Option<TimeSpan>,
> {
    match spec_get(fields, key) {
        None => Some(None),
        Some(JsonV::Null) => Some(None),
        Some(v) => match spec_parse_timespan(v) {
            Some(t) => Some(Some(t)),
            None => None,
        },
    }
}

/// A tool state read from a JSON value: an object tagged by a `status`
/// string. An unrecognized status fails; there is no catch-all state.
pub open spec fn spec_parse_tool_state(j: JsonV) -> Option<ToolStateV> {
    match j {
        JsonV::Obj(f) => match spec_get(f, "status"@) {
            Some(JsonV::Str(status)) => if status == "pending"@ {
                Some(ToolStateV::Pending { input: spec_opt_json(f, "input"@) })
            } else if status == "running"@ {
                match (spec_opt_str(f, "title"@), spec_opt_obj(f, "metadata"@)) {
                    (Some(title), Some(metadata)) => Some(
                        ToolStateV::Running { input: spec_opt_json(f, "input"@), title, metadata },
                    ),
                    _ => None,
                }
            } else if status == "completed"@ {
                match (
                    spec_opt_str(f, "output"@),
                    spec_opt_str(f, "title"@),
                    spec_opt_obj(f, "metadata"@),
                ) {
                    (Some(output), Some(title), Some(metadata)) => Some(
                        ToolStateV::Completed {
                            input: spec_opt_json(f, "input"@),
                            output,
                            title,
                            metadata,
                        },
                    ),
                    _ => None,
                }
            } else if status == "error"@ {
                match spec_opt_str(f, "error"@) {
                    Some(error) => Some(
                        ToolStateV::Error { input: spec_opt_json(f, "input"@), error },
                    ),
                    None => None,
                }
            } else {
                None
            },
            _ => None,
        },
        _ => None,
    }
}

/// An optional tool-state field: missing or `null` reads as absent; any
/// other value must be a well-formed tool state.
pub open spec fn spec_opt_tool_state(fields: Seq<(Seq<char>, JsonV)>, key: Seq<char>) -> Option<
    Option<ToolStateV>,
> {
    match spec_get(fields, key) {
        None => Some(None),
        Some(JsonV::Null) => Some(None),
        Some(v) => match spec_parse_tool_state(v) {
            Some(t) => Some(Some(t)),
            None => None,
        },
    }
}

/// A part read from a JSON value: an object tagged by a `type` string.
/// Recognized types read their own fields; any other string type reads as
/// `Other`; a missing or non-string type fails.
pub open spec fn spec_parse_part(j: JsonV) -> Option<PartV> {
    match j {
        JsonV::Obj(f) => match spec_get(f, "type"@) {
            Some(JsonV::Str(tag)) => if tag == "text"@ {
                match (
                    spec_req_str(f, "id"@),
                    spec_opt_str(f, "sessionID"@),
                    spec_opt_str(f, "messageID"@),
                    spec_def_str(f, "text"@),
                    spec_opt_timespan(f, "time"@),
                ) {
                    (Some(id), Some(session_id), Some(message_id), Some(text), Some(time)) => Some(
                        PartV::Text { id, session_id, message_id, text, time },
                    ),
                    _ => None,
                }
            } else if tag == "tool"@ {
                match (
                    spec_req_str(f, "id"@),
                    spec_opt_str(f, "sessionID"@),
                    spec_opt_str(f, "messageID"@),
                    spec_opt_str(f, "callID"@),
                    spec_opt_str(f, "tool"@),
                    spec_opt_tool_state(f, "state"@),
                ) {
                    (
                        Some(id),
                        Some(session_id),
                        Some(message_id),
                        Some(call_id),
                        Some(tool),
                        Some(state),
                    ) => Some(
                        PartV::Tool { id, session_id, message_id, call_id, tool, state },
                    ),
                    _ => None,
                }
            } else if tag == "step-start"@ {
                match (spec_req_str(f, "id"@), spec_opt_str(f, "sessionID"@)) {
                    (Some(id), Some(session_id)) => Some(PartV::StepStart { id, session_id }),
                    _ => None,
                }
            } else if tag == "step-finish"@ {
                match (
                    spec_req_str(f, "id"@),
                    spec_opt_str(f, "sessionID"@),
                    spec_opt_str(f, "reason"@),
                ) {
                    (Some(id), Some(session_id), Some(reason)) => Some(
                        PartV::StepFinish { id, session_id, reason },
                    ),
                    _ => None,
                }
            } else {
                Some(PartV::Other)
            },
            _ => None,
        },
        _ => None,
    }
}

/// Read a time span from a JSON value.
pub fn parse_timespan(j: &Json) -> (r: Option<TimeSpan>)
    ensures
        match r {
            Some(t) => spec_parse_timespan(j@) == Some(t),
            None => spec_parse_timespan(j@) is None,
        },
{
    match j {
        Json::Obj(f) => {
            let start = match get_opt_num(f, "start") {
                Some(o) => o,
                None => {
                    return None;
                },
            };
            let end = match get_opt_num(f, "end") {
                Some(o) => o,
                None => {
                    return None;
                },
            };
            Some(TimeSpan { start, end })
        },
        _ => None,
    }
}

/// Read a tool state from a JSON value.
pub fn parse_tool_state(j: &Json) -> (r: Option<ToolState>)
    ensures
        match r {
            Some(t) => spec_parse_tool_state(j@) == Some(t@),
            None => spec_parse_tool_state(j@) is None,
        },
{
    let f = match j {
        Json::Obj(f) => f,
        _ => {
            return None;
        },
    };
    let status = match obj_get(f, "status") {
        Some(Json::Str(s)) => s,
        _ => {
            return None;
        },
    };
    if str_eq(status.as_str(), "pending") {
        let input = get_opt_json(f, "input");
        Some(ToolState::Pending { input })
    } else if str_eq(status.as_str(), "running") {
        let title = match get_opt_str(f, "title") {
            Some(o) => o,
            None => {
                return None;
            },
        };
        let metadata = match get_opt_obj(f, "metadata") {
            Some(o) => o,
            None => {
                return None;
            },
        };
        let input = get_opt_json(f, "input");
        Some(ToolState::Running { input, title, metadata })
    } else if str_eq(status.as_str(), "completed") {
        let output = match get_opt_str(f, "output") {
            Some(o) => o,
            None => {
                return None;
            },
        };
        let title = match get_opt_str(f, "title") {
            Some(o) => o,
            None => {
                return None;
            },
        };
        let metadata = match get_opt_obj(f, "metadata") {
            Some(o) => o,
            None => {
                return None;
            },
        };
        let input = get_opt_json(f, "input");
        Some(ToolState::Completed { input, output, title, metadata })
    } else if str_eq(status.as_str(), "error") {
        let error = match get_opt_str(f, "error") {
            Some(o) => o,
            None => {
                return None;
            },
        };
        let input = get_opt_json(f, "input");
        Some(ToolState::Error { input, error })
    } else {
        None
    }
}

/// Read an optional tool-state field of an object.
pub fn get_opt_tool_state(fields: &Vec<JsonField>, key: &str) -> (r: Option<Option<ToolState>>)
    ensures
        match r {
            Some(o) => spec_opt_tool_state(fields_view(fields@), key@) == Some(
                opt_tool_state_view(o),
            ),
            None => spec_opt_tool_state(fields_view(fields@), key@) is None,
        },
{
    match obj_get(fields, key) {
        None => Some(None),
        Some(Json::Null) => Some(None),
        Some(v) => match parse_tool_state(v) {
            Some(t) => Some(Some(t)),
            None => None,
        },
    }
}

/// Read an optional time-span field of an object.
pub fn get_opt_timespan(fields: &Vec<JsonField>, key: &str) -> (r: Option<Option<TimeSpan>>)
    ensures
        match r {
            Some(o) => spec_opt_timespan(fields_view(fields@), key@) == Some(o),
            None => spec_opt_timespan(fields_view(fields@), key@) is None,
        },
{
    match obj_get(fields, key) {
        None => Some(None),
        Some(Json::Null) => Some(None),
        Some(v) => match parse_timespan(v) {
            Some(t) => Some(Some(t)),
            None => None,
        },
    }
}

/// Read a part from a JSON value.
pub fn parse_part(j: &Json) -> (r: Option<Part>)
    ensures
        match r {
            Some(p) => spec_parse_part(j@) == Some(p@),
            None => spec_parse_part(j@) is None,
        },
{
    let f = match j {
        Json::Obj(f) => f,
        _ => {
            return None;
        },
    };
    let tag = match obj_get(f, "type") {
        Some(Json::Str(s)) => s,
        _ => {
            return None;
        },
    };
    if str_eq(tag.as_str(), "text") {
        let id = match get_req_str(f, "id") {
            Some(s) => s,
            None => {
                return None;
            },
        };
        let session_id = match get_opt_str(f, "sessionID") {
            Some(o) => o,
            None => {
                return None;
            },
        };
        let message_id = match get_opt_str(f, "messageID") {
            Some(o) => o,
            None => {
                return None;
            },
        };
        let text = match get_def_str(f, "text") {
            Some(s) => s,
            None => {
                return None;
            },
        };
        let time = match get_opt_timespan(f, "time") {
            Some(o) => o,
            None => {
                return None;
            },
        };
        Some(Part::Text { id, session_id, message_id, text, time })
    } else if str_eq(tag.as_str(), "tool") {
        let id = match get_req_str(f, "id") {
            Some(s) => s,
            None => {
                return None;
            },
        };
        let session_id = match get_opt_str(f, "sessionID") {
            Some(o) => o,
            None => {
                return None;
            },
        };
        let message_id = match get_opt_str(f, "messageID") {
            Some(o) => o,
            None => {
                return None;
            },
        };
        let call_id = match get_opt_str(f, "callID") {
            Some(o) => o,
            None => {
                return None;
            },
        };
        let tool = match get_opt_str(f, "tool") {
            Some(o) => o,
            None => {
                return None;
            },
        };
        let state = match get_opt_tool_state(f, "state") {
            Some(o) => o,
            None => {
                return None;
            },
        };
        Some(Part::Tool { id, session_id, message_id, call_id, tool, state })
    } else if str_eq(tag.as_str(), "step-start") {
        let id = match get_req_str(f, "id") {
            Some(s) => s,
            None => {
                return None;
            },
        };
        let session_id = match get_opt_str(f, "sessionID") {
            Some(o) => o,
            None => {
                return None;
            },
        };
        Some(Part::StepStart { id, session_id })
    } else if str_eq(tag.as_str(), "step-finish") {
        let id = match get_req_str(f, "id") {
            Some(s) => s,
            None => {
                return None;
            },
        };
        let session_id = match get_opt_str(f, "sessionID") {
            Some(o) => o,
            None => {
                return None;
            },
        };
        let reason = match get_opt_str(f, "reason") {
            Some(o) => o,
            None => {
                return None;
            },
        };
        Some(Part::StepFinish { id, session_id, reason })
    } else {
        Some(Part::Other)
    }
}

/// The stable lowercase label of a tool state.
pub open spec fn spec_status_str(t: ToolStateV) -> Seq<char> {
    match t {
        ToolStateV::Pending { .. } => "pending"@,
        ToolStateV::Running { .. } => "running"@,
        ToolStateV::Completed { .. } => "completed"@,
        ToolStateV::Error { .. } => "error"@,
    }
}

impl ToolState {
    /// Whether this is a running state.
    pub fn is_running(&self) -> (r: bool)
        ensures
            r == (self@ is Running),
    {
        matches!(self, ToolState::Running { .. })
    }

    /// Whether this is a completed state.
    pub fn is_completed(&self) -> (r: bool)
        ensures
            r == (self@ is Completed),
    {
        matches!(self, ToolState::Completed { .. })
    }

    /// Whether this is an error state.
    pub fn is_error(&self) -> (r: bool)
        ensures
            r == (self@ is Error),
    {
        matches!(self, ToolState::Error { .. })
    }

    /// A display-friendly status label.
    pub fn status_str(&self) -> (r: &'static str)
        ensures
            r@ == spec_status_str(self@),
    {
        match self {
            ToolState::Pending { .. } => "pending",
            ToolState::Running { .. } => "running",
            ToolState::Completed { .. } => "completed",
            ToolState::Error { .. } => "error",
        }
    }
}

/// The status label is always one of the four known labels, the three
/// progress predicates are mutually exclusive, and each holds exactly when
/// the label says so.
pub proof fn lemma_tool_state_status(t: ToolStateV)
    ensures
        spec_status_str(t) == "pending"@ || spec_status_str(t) == "running"@ || spec_status_str(t)
            == "completed"@ || spec_status_str(t) == "error"@,
        (t is Running) <==> spec_status_str(t) == "running"@,
        (t is Completed) <==> spec_status_str(t) == "completed"@,
        (t is Error) <==> spec_status_str(t) == "error"@,
        !((t is Running) && (t is Completed)),
        !((t is Running) && (t is Error)),
        !((t is Completed) && (t is Error)),
{
    reveal_strlit("pending");
    reveal_strlit("running");
    reveal_strlit("completed");
    reveal_strlit("error");
    assert("pending"@.len() == 7 && "running"@.len() == 7 && "completed"@.len() == 9 && "error"@
        .len() == 5);
    assert("pending"@[0] == 'p' && "running"@[0] == 'r');
    assert("pending"@ != "running"@);
    match t {
        ToolStateV::Pending { .. } => {},
        ToolStateV::Running { .. } => {},
        ToolStateV::Completed { .. } => {},
        ToolStateV::Error { .. } => {},
    }
}

} // verus!
