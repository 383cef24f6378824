//! The closed error taxonomy and the value that carries it to the boundary.

use serde_json::Value;
use vstd::prelude::*;
use vstd::string::StringExecFns;

verus! {

/// Every kind of failure the service reports.
#[derive(Debug, Clone, Copy, PartialEq, Eq, Structural)]
pub enum LocalErrKind {
    VideoResolutionTooLow,
    InvalidVideoFormat,
    InvalidImageFormat,
    StoreVideo,
    StoreImage,
    VideoNotFound,
    LoginError,
    CreateUser,
    UserAlredyExists,
    VersionMismatch,
    NotLogged,
    Unauthorized,
    JsonRejection,
    QueryRejection,
    BytesRejection,
    PathRejection,
    WebSocketUpgradeRejection,
    MultipartRejection,
    Code500,
    NotFound,
}

pub const BAD_REQUEST: u16 = 400;

pub const UNAUTHORIZED: u16 = 401;

pub const NOT_FOUND: u16 = 404;

pub const INTERNAL_SERVER_ERROR: u16 = 500;

impl LocalErrKind {
    /// The text under which a kind appears in an error response.
    pub open spec fn spec_name(self) -> Seq<char> {
        match self {
            LocalErrKind::VideoResolutionTooLow => "VideoResolutionTooLow"@,
            LocalErrKind::InvalidVideoFormat => "InvalidVideoFormat"@,
            LocalErrKind::InvalidImageFormat => "InvalidImageFormat"@,
            LocalErrKind::StoreVideo => "StoreVideo"@,
            LocalErrKind::StoreImage => "StoreImage"@,
            LocalErrKind::VideoNotFound => "VideoNotFound"@,
            LocalErrKind::LoginError => "LoginError"@,
            LocalErrKind::CreateUser => "CreateUser"@,
            LocalErrKind::UserAlredyExists => "UserAlredyExists"@,
            LocalErrKind::VersionMismatch => "VersionMismatch"@,
            LocalErrKind::NotLogged => "NotLogged"@,
            LocalErrKind::Unauthorized => "Unauthorized"@,
            LocalErrKind::JsonRejection => "JsonRejection"@,
            LocalErrKind::QueryRejection => "QueryRejection"@,
            LocalErrKind::BytesRejection => "BytesRejection"@,
            LocalErrKind::PathRejection => "PathRejection"@,
            LocalErrKind::WebSocketUpgradeRejection => "WebSocketUpgradeRejection"@,
            LocalErrKind::MultipartRejection => "MultipartRejection"@,
            LocalErrKind::Code500 => "Code500"@,
            LocalErrKind::NotFound => "NotFound"@,
        }
    }

    /// The variant's own name, as it is written in an error response.
    pub fn name(self) -> (s: &'static str)
        ensures
            s@ == self.spec_name(),
    {
        match self {
            LocalErrKind::VideoResolutionTooLow => "VideoResolutionTooLow",
            LocalErrKind::InvalidVideoFormat => "InvalidVideoFormat",
            LocalErrKind::InvalidImageFormat => "InvalidImageFormat",
            LocalErrKind::StoreVideo => "StoreVideo",
            LocalErrKind::StoreImage => "StoreImage",
            LocalErrKind::VideoNotFound => "VideoNotFound",
            LocalErrKind::LoginError => "LoginError",
            LocalErrKind::CreateUser => "CreateUser",
            LocalErrKind::UserAlredyExists => "UserAlredyExists",
            LocalErrKind::VersionMismatch => "VersionMismatch",
            LocalErrKind::NotLogged => "NotLogged",
            LocalErrKind::Unauthorized => "Unauthorized",
            LocalErrKind::JsonRejection => "JsonRejection",
            LocalErrKind::QueryRejection => "QueryRejection",
            LocalErrKind::BytesRejection => "BytesRejection",
            LocalErrKind::PathRejection => "PathRejection",
            LocalErrKind::WebSocketUpgradeRejection => "WebSocketUpgradeRejection",
            LocalErrKind::MultipartRejection => "MultipartRejection",
            LocalErrKind::Code500 => "Code500",
            LocalErrKind::NotFound => "NotFound",
        }
    }

    /// The status table: the HTTP status that a kind is answered with, for the
    /// kinds whose status is fixed. The other kinds take the status that their
    /// call site gives them.
    pub open spec fn spec_status(self) -> Option<u16> {
        match self {
            LocalErrKind::UserAlredyExists => Some(BAD_REQUEST),
            LocalErrKind::JsonRejection => Some(BAD_REQUEST),
            LocalErrKind::QueryRejection => Some(BAD_REQUEST),
            LocalErrKind::BytesRejection => Some(BAD_REQUEST),
            LocalErrKind::PathRejection => Some(BAD_REQUEST),
            LocalErrKind::MultipartRejection => Some(BAD_REQUEST),
            LocalErrKind::Unauthorized => Some(UNAUTHORIZED),
            LocalErrKind::NotFound => Some(NOT_FOUND),
            LocalErrKind::Code500 => Some(INTERNAL_SERVER_ERROR),
            _ => None,
        }
    }

    pub fn status(self) -> (code: Option<u16>)
        ensures
            code == self.spec_status(),
    {
        match self {
            LocalErrKind::UserAlredyExists
            | LocalErrKind::JsonRejection
            | LocalErrKind::QueryRejection
            | LocalErrKind::BytesRejection
            | LocalErrKind::PathRejection
            | LocalErrKind::MultipartRejection => Some(BAD_REQUEST),
            LocalErrKind::Unauthorized => Some(UNAUTHORIZED),
            LocalErrKind::NotFound => Some(NOT_FOUND),
            LocalErrKind::Code500 => Some(INTERNAL_SERVER_ERROR),
            _ => None,
        }
    }
}

/// A failure on its way to the client: the kind, the status it is answered
/// with, and an optional human-readable message. `detail` is what went wrong
/// inside, for the service's log; it is never part of the response.
#[derive(Debug, Clone)]
pub struct LocalErr {
    pub error: LocalErrKind,
    pub msg: Option<String>,
    pub code: u16,
    pub detail: Option<String>,
}

pub type LocalResult<T> = Result<T, LocalErr>;

/// True of a result that is the error of kind `kind` with status `code`, no
/// message, and nothing for the log.
pub open spec fn fails_with<T>(r: LocalResult<T>, kind: LocalErrKind, code: u16) -> bool {
    r is Err && r->Err_0.is_bare(kind, code) && r->Err_0.detail is None
}

/// True of a result that is an internal error without a message. What it
/// holds for the log is whatever the failing step said.
pub open spec fn fails_inside<T>(r: LocalResult<T>) -> bool {
    r is Err && r->Err_0.is_bare(LocalErrKind::Code500, INTERNAL_SERVER_ERROR)
}

/// True of a result that is an internal error without a message, with
/// `detail` for the log.
pub open spec fn fails_inside_with<T>(r: LocalResult<T>, detail: String) -> bool {
    fails_inside(r) && r->Err_0.detail == Some(detail)
}

impl LocalErr {
    /// True of an error of kind `kind` with status `code` that carries no message.
    pub open spec fn is_bare(&self, kind: LocalErrKind, code: u16) -> bool {
        &&& self.error == kind
        &&& self.code == code
        &&& self.msg is None
    }

    pub fn new(e: LocalErrKind, code: u16) -> (err: Self)
        ensures
            err.is_bare(e, code),
            err.detail is None,
    {
        Self { error: e, code, msg: None, detail: None }
    }

    /// The internal error for a step that failed with `detail`. The client is
    /// shown the kind alone; `detail` is for the log.
    pub fn internal(detail: String) -> (err: Self)
        ensures
            err.is_bare(LocalErrKind::Code500, INTERNAL_SERVER_ERROR),
            err.detail == Some(detail),
    {
        Self { error: LocalErrKind::Code500, code: INTERNAL_SERVER_ERROR, msg: None, detail: Some(detail) }
    }

    /// The same error with `msg` as its message, in place of any earlier one.
    pub fn with_msg(self, msg: String) -> (err: Self)
        ensures
            err.error == self.error,
            err.code == self.code,
            err.msg == Some(msg),
            err.detail == self.detail,
    {
        Self { error: self.error, code: self.code, msg: Some(msg), detail: self.detail }
    }

    /// The error for a request whose shape was rejected: status 400 and the
    /// rejection's own text as the message.
    pub fn rejection(kind: LocalErrKind, body_text: String) -> (err: Self)
        ensures
            err.error == kind,
            err.code == BAD_REQUEST,
            err.msg == Some(body_text),
            err.detail is None,
    {
        Self::new(kind, BAD_REQUEST).with_msg(body_text)
    }

    /// The error that every storage failure collapses to.
    pub fn storage_failure() -> (err: Self)
        ensures
            err.is_bare(LocalErrKind::Code500, INTERNAL_SERVER_ERROR),
            err.detail is None,
    {
        Self::new(LocalErrKind::Code500, INTERNAL_SERVER_ERROR)
    }
}

/// The text `text` as a JSON string: in double quotes, with what needs it
/// escaped.
pub uninterp spec fn json_quoted(text: Seq<char>) -> Seq<char>;

/// Assumed of `serde_json`'s rendering of a string value
/// (`Value::to_string`): its result depends on the text alone.
#[verifier::external_body]
fn json_quote(text: &str) -> (quoted: String)
    ensures
        quoted@ == json_quoted(text@),
{
    Value::from(text).to_string()
}

/// The body of an error response, from its parts as JSON strings: an object
/// with the member `error`, and the member `msg` if there is a message.
pub open spec fn spec_error_body(quoted_kind: Seq<char>, quoted_msg: Option<Seq<char>>) -> Seq<char> {
    match quoted_msg {
        Some(msg) => "{\"error\":"@ + quoted_kind + ",\"msg\":"@ + msg + "}"@,
        None => "{\"error\":"@ + quoted_kind + "}"@,
    }
}

/// Puts the body of an error response together from its parts, each already
/// a JSON string.
pub fn error_body(quoted_kind: &str, quoted_msg: Option<&str>) -> (body: String)
    ensures
        body@ == spec_error_body(
            quoted_kind@,
            match quoted_msg {
                Some(msg) => Some(msg@),
                None => None,
            },
        ),
{
    let mut body = "{\"error\":".to_string();
    body.append(quoted_kind);
    match quoted_msg {
        Some(msg) => {
            body.append(",\"msg\":");
            body.append(msg);
        },
        None => {},
    }
    body.append("}");
    body
}

impl LocalErr {
    /// The body that this error is answered with.
    pub open spec fn spec_response_body(&self) -> Seq<char> {
        spec_error_body(
            json_quoted(self.error.spec_name()),
            match self.msg {
                Some(msg) => Some(json_quoted(msg@)),
                None => None,
            },
        )
    }

    /// The JSON body that this error is answered with: the kind by its name
    /// and, if there is one, the message. Nothing else of the failure is shown.
    pub fn response_body(&self) -> (body: String)
        ensures
            body@ == self.spec_response_body(),
    {
        let kind = json_quote(self.error.name());
        match &self.msg {
            Some(msg) => {
                let quoted = json_quote(msg.as_str());
                error_body(kind.as_str(), Some(quoted.as_str()))
            },
            None => error_body(kind.as_str(), None),
        }
    }
}

} // verus!
