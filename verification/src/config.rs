//! Server configuration and plain API responses.
//!
//! The headless server is configured through an environment-injected JSON
//! object. The default permission posture is fully permissive — `"allow"`
//! for edit, bash and webfetch — and is an explicit, overridable value, not
//! a hidden constant.

use vstd::prelude::*;
use crate::json::{fields_view, lemma_fields_view, obj_get, spec_get, Json, JsonField, JsonV};
use crate::schema::{
    get_def_bool, get_opt_str, get_req_str, opt_str_view, spec_def_bool, spec_opt_str,
    spec_req_str,
};

verus! {

/// A session object returned by the server.
#[derive(Clone, Debug, PartialEq)]
pub struct Session {
    pub id: String,
    pub title: Option<String>,
    pub parent_id: Option<String>,
}

/// Mathematical view of a `Session`.
pub struct SessionV {
    pub id: Seq<char>,
    pub title: Option<Seq<char>>,
    pub parent_id: Option<Seq<char>>,
}

impl View for Session {
    type V = SessionV;

    open spec fn view(&self) -> SessionV {
        SessionV {
            id: self.id@,
            title: opt_str_view(self.title),
            parent_id: opt_str_view(self.parent_id),
        }
    }
}

/// A session read from a JSON value: `id` required, `title` and
/// `parentId` optional.
pub open spec fn spec_parse_session(j: JsonV) -> Option<SessionV> {
    match j {
        JsonV::Obj(f) => match (
            spec_req_str(f, "id"@),
            spec_opt_str(f, "title"@),
            spec_opt_str(f, "parentId"@),
        ) {
            (Some(id), Some(title), Some(parent_id)) => Some(SessionV { id, title, parent_id }),
            _ => None,
        },
        _ => None,
    }
}

impl Session {
    /// Read a session from a JSON value.
    pub fn from_json(j: &Json) -> (r: Option<Session>)
        ensures
            match r {
                Some(s) => spec_parse_session(j@) == Some(s@),
                None => spec_parse_session(j@) is None,
            },
    {
        let f = match j {
            Json::Obj(f) => f,
            _ => {
                return None;
            },
        };
        let id = match get_req_str(f, "id") {
            Some(s) => s,
            None => {
                return None;
            },
        };
        let title = match get_opt_str(f, "title") {
            Some(o) => o,
            None => {
                return None;
            },
        };
        let parent_id = match get_opt_str(f, "parentId") {
            Some(o) => o,
            None => {
                return None;
            },
        };
        Some(Session { id, title, parent_id })
    }
}

/// A health check response.
#[derive(Clone, Debug, PartialEq)]
pub struct HealthResponse {
    pub healthy: bool,
    pub version: Option<String>,
}

/// Mathematical view of a `HealthResponse`.
pub struct HealthResponseV {
    pub healthy: bool,
    pub version: Option<Seq<char>>,
}

impl View for HealthResponse {
    type V = HealthResponseV;

    open spec fn view(&self) -> HealthResponseV {
        HealthResponseV { healthy: self.healthy, version: opt_str_view(self.version) }
    }
}

/// A health response read from a JSON value: `healthy` defaults to
/// `false`, `version` is optional.
pub open spec fn spec_parse_health(j: JsonV) -> Option<HealthResponseV> {
    match j {
        JsonV::Obj(f) => match (spec_def_bool(f, "healthy"@), spec_opt_str(f, "version"@)) {
            (Some(healthy), Some(version)) => Some(HealthResponseV { healthy, version }),
            _ => None,
        },
        _ => None,
    }
}

impl HealthResponse {
    /// Read a health response from a JSON value.
    pub fn from_json(j: &Json) -> (r: Option<HealthResponse>)
        ensures
            match r {
                Some(h) => spec_parse_health(j@) == Some(h@),
                None => spec_parse_health(j@) is None,
            },
    {
        let f = match j {
            Json::Obj(f) => f,
            _ => {
                return None;
            },
        };
        let healthy = match get_def_bool(f, "healthy") {
            Some(b) => b,
            None => {
                return None;
            },
        };
        let version = match get_opt_str(f, "version") {
            Some(o) => o,
            None => {
                return None;
            },
        };
        Some(HealthResponse { healthy, version })
    }
}

/// Permission settings for headless operation.
#[derive(Debug, PartialEq)]
pub struct OpenCodePermissions {
    pub edit: String,
    pub bash: String,
    pub webfetch: String,
}

/// Mathematical view of `OpenCodePermissions`.
pub struct OpenCodePermissionsV {
    pub edit: Seq<char>,
    pub bash: Seq<char>,
    pub webfetch: Seq<char>,
}

impl View for OpenCodePermissions {
    type V = OpenCodePermissionsV;

    open spec fn view(&self) -> OpenCodePermissionsV {
        OpenCodePermissionsV { edit: self.edit@, bash: self.bash@, webfetch: self.webfetch@ }
    }
}

/// The webfetch permission used when a configuration omits one.
pub fn default_webfetch_permission() -> (r: String)
    ensures
        r@ == "allow"@,
{
    "allow".to_string()
}

impl Default for OpenCodePermissions {
    /// The fully permissive default posture.
    fn default() -> (r: Self)
        ensures
            r@.edit == "allow"@,
            r@.bash == "allow"@,
            r@.webfetch == "allow"@,
    {
        OpenCodePermissions {
            edit: "allow".to_string(),
            bash: "allow".to_string(),
            webfetch: "allow".to_string(),
        }
    }
}

/// Permissions read from a JSON value: `edit` and `bash` required,
/// `webfetch` defaulting to `"allow"` when missing.
pub open spec fn spec_parse_permissions(j: JsonV) -> Option<OpenCodePermissionsV> {
    match j {
        JsonV::Obj(f) => match (
            spec_req_str(f, "edit"@),
            spec_req_str(f, "bash"@),
            match spec_get(f, "webfetch"@) {
                None => Some("allow"@),
                Some(JsonV::Str(s)) => Some(s),
                Some(_) => None,
            },
        ) {
            (Some(edit), Some(bash), Some(webfetch)) => Some(
                OpenCodePermissionsV { edit, bash, webfetch },
            ),
            _ => None,
        },
        _ => None,
    }
}

impl OpenCodePermissions {
    /// Read permissions from a JSON value.
    pub fn from_json(j: &Json) -> (r: Option<OpenCodePermissions>)
        ensures
            match r {
                Some(p) => spec_parse_permissions(j@) == Some(p@),
                None => spec_parse_permissions(j@) is None,
            },
    {
        let f = match j {
            Json::Obj(f) => f,
            _ => {
                return None;
            },
        };
        let edit = match get_req_str(f, "edit") {
            Some(s) => s,
            None => {
                return None;
            },
        };
        let bash = match get_req_str(f, "bash") {
            Some(s) => s,
            None => {
                return None;
            },
        };
        let webfetch = match obj_get(f, "webfetch") {
            None => default_webfetch_permission(),
            Some(Json::Str(s)) => s.clone(),
            Some(_) => {
                return None;
            },
        };
        Some(OpenCodePermissions { edit, bash, webfetch })
    }

    /// The built body: the three permission labels.
    pub open spec fn spec_to_json(self) -> JsonV {
        JsonV::Obj(
            seq![
                ("edit"@, JsonV::Str(self.edit@)),
                ("bash"@, JsonV::Str(self.bash@)),
                ("webfetch"@, JsonV::Str(self.webfetch@)),
            ],
        )
    }

    /// Build the wire body for these permissions.
    pub fn to_json(&self) -> (r: Json)
        ensures
            r@ == self.spec_to_json(),
    {
        let mut fields: Vec<JsonField> = Vec::new();
        fields.push(JsonField { key: "edit".to_string(), value: Json::Str(self.edit.clone()) });
        fields.push(JsonField { key: "bash".to_string(), value: Json::Str(self.bash.clone()) });
        fields.push(
            JsonField { key: "webfetch".to_string(), value: Json::Str(self.webfetch.clone()) },
        );
        let r = Json::Obj(fields);
        proof {
            lemma_fields_view(r->Obj_0@);
            assert(fields_view(r->Obj_0@) =~= self.spec_to_json()->Obj_0);
        }
        r
    }
}

/// Configuration handed to the headless server through its environment.
#[derive(Debug, PartialEq)]
pub struct OpenCodeEnvConfig {
    pub schema: String,
    pub lsp: bool,
    pub formatter: bool,
    pub permission: OpenCodePermissions,
}

impl OpenCodeEnvConfig {
    /// Build the configuration for the given permissions: the published
    /// schema URL, language servers and formatters off.
    pub fn new(permissions: &OpenCodePermissions) -> (r: Self)
        ensures
            r.schema@ == "https://opencode.ai/config.json"@,
            r.lsp == false,
            r.formatter == false,
            r.permission@ == permissions@,
    {
        OpenCodeEnvConfig {
            schema: "https://opencode.ai/config.json".to_string(),
            lsp: false,
            formatter: false,
            permission: OpenCodePermissions {
                edit: permissions.edit.clone(),
                bash: permissions.bash.clone(),
                webfetch: permissions.webfetch.clone(),
            },
        }
    }

    /// The built body: the schema URL, the two feature switches, and the
    /// nested permission object.
    pub open spec fn spec_to_json(self) -> JsonV {
        JsonV::Obj(
            seq![
                ("$schema"@, JsonV::Str(self.schema@)),
                ("lsp"@, JsonV::Bool(self.lsp)),
                ("formatter"@, JsonV::Bool(self.formatter)),
                ("permission"@, self.permission.spec_to_json()),
            ],
        )
    }

    /// Build the wire body for this configuration.
    pub fn to_json(&self) -> (r: Json)
        ensures
            r@ == self.spec_to_json(),
    {
        let mut fields: Vec<JsonField> = Vec::new();
        fields.push(
            JsonField { key: "$schema".to_string(), value: Json::Str(self.schema.clone()) },
        );
        fields.push(JsonField { key: "lsp".to_string(), value: Json::Bool(self.lsp) });
        fields.push(JsonField { key: "formatter".to_string(), value: Json::Bool(self.formatter) });
        fields.push(
            JsonField { key: "permission".to_string(), value: self.permission.to_json() },
        );
        let r = Json::Obj(fields);
        proof {
            lemma_fields_view(r->Obj_0@);
            assert(fields_view(r->Obj_0@) =~= self.spec_to_json()->Obj_0);
        }
        r
    }
}

} // verus!
