//! The error type of the service and what the transport layer needs to
//! render it.

use crate::text::{concat, concat3, opt_text};
use vstd::prelude::*;
use vstd::std_specs::convert::FromSpecImpl;
use vstd::string::*;

verus! {

/// The kinds of failure, one per variant of [`AppError`].
#[derive(Debug, Clone, Copy, PartialEq, Eq, Structural)]
pub enum ErrorKind {
    BadRequest,
    Unauthorized,
    Forbidden,
    NotFound,
    Conflict,
    RateLimited,
    Validation,
    Internal,
    Server,
    Config,
    Database,
    Io,
    Json,
    Jwt,
    UrlParse,
}

/// A failure of the service. Every variant but `RateLimited` carries a
/// human-readable detail; the last five stand for failures reported by the
/// storage, I/O, JSON, token and URL-parsing layers and carry their message.
#[derive(Debug)]
pub enum AppError {
    BadRequest(String),
    Unauthorized(String),
    Forbidden(String),
    NotFound(String),
    Conflict(String),
    RateLimited,
    Validation(String),
    Internal(String),
    Server(String),
    Config(String),
    Database(String),
    Io(String),
    Json(String),
    Jwt(String),
    UrlParse(String),
}

/// The model of an [`AppError`]: its kind and its detail text.
pub struct ErrorView {
    pub kind: ErrorKind,
    pub detail: Seq<char>,
}

/// Results of the service.
pub type Result<T, E = AppError> = std::result::Result<T, E>;

/// The model of a result of the service: a value, or the model of a
/// failure.
pub type Outcome<T> = std::result::Result<T, ErrorView>;

/// Whether an outcome is the given failure.
pub open spec fn fails_with<T>(outcome: Outcome<T>, failure: ErrorView) -> bool {
    outcome is Err && outcome->Err_0 == failure
}

/// The HTTP status that stands for a kind of failure.
pub open spec fn status_of(kind: ErrorKind) -> u16 {
    match kind {
        ErrorKind::BadRequest => 400,
        ErrorKind::Unauthorized => 401,
        ErrorKind::Forbidden => 403,
        ErrorKind::NotFound => 404,
        ErrorKind::Conflict => 409,
        ErrorKind::RateLimited => 429,
        ErrorKind::Validation => 422,
        _ => 500,
    }
}

/// The text that introduces the detail when a failure of the given kind is
/// displayed.
pub open spec fn label_of(kind: ErrorKind) -> Seq<char> {
    match kind {
        ErrorKind::BadRequest => "Bad request: "@,
        ErrorKind::Unauthorized => "Unauthorized: "@,
        ErrorKind::Forbidden => "Forbidden: "@,
        ErrorKind::NotFound => "Not found: "@,
        ErrorKind::Conflict => "Conflict: "@,
        ErrorKind::RateLimited => "Too many requests"@,
        ErrorKind::Validation => "Validation error: "@,
        ErrorKind::Internal => "Internal server error: "@,
        ErrorKind::Server => "Server error: "@,
        ErrorKind::Config => "Configuration error: "@,
        ErrorKind::Database => "Database error: "@,
        ErrorKind::Io => "IO error: "@,
        ErrorKind::Json => "JSON error: "@,
        ErrorKind::Jwt => "JWT error: "@,
        ErrorKind::UrlParse => "URL parsing error: "@,
    }
}

impl View for AppError {
    type V = ErrorView;

    open spec fn view(&self) -> ErrorView {
        match self {
            AppError::BadRequest(m) => ErrorView { kind: ErrorKind::BadRequest, detail: m@ },
            AppError::Unauthorized(m) => ErrorView { kind: ErrorKind::Unauthorized, detail: m@ },
            AppError::Forbidden(m) => ErrorView { kind: ErrorKind::Forbidden, detail: m@ },
            AppError::NotFound(m) => ErrorView { kind: ErrorKind::NotFound, detail: m@ },
            AppError::Conflict(m) => ErrorView { kind: ErrorKind::Conflict, detail: m@ },
            AppError::RateLimited => ErrorView {
                kind: ErrorKind::RateLimited,
                detail: Seq::empty(),
            },
            AppError::Validation(m) => ErrorView { kind: ErrorKind::Validation, detail: m@ },
            AppError::Internal(m) => ErrorView { kind: ErrorKind::Internal, detail: m@ },
            AppError::Server(m) => ErrorView { kind: ErrorKind::Server, detail: m@ },
            AppError::Config(m) => ErrorView { kind: ErrorKind::Config, detail: m@ },
            AppError::Database(m) => ErrorView { kind: ErrorKind::Database, detail: m@ },
            AppError::Io(m) => ErrorView { kind: ErrorKind::Io, detail: m@ },
            AppError::Json(m) => ErrorView { kind: ErrorKind::Json, detail: m@ },
            AppError::Jwt(m) => ErrorView { kind: ErrorKind::Jwt, detail: m@ },
            AppError::UrlParse(m) => ErrorView { kind: ErrorKind::UrlParse, detail: m@ },
        }
    }
}

/// The detail text of the "not found" failure for a short code.
pub open spec fn url_not_found_text(short_code: Seq<char>) -> Seq<char> {
    "URL with code '"@ + short_code + "' not found"@
}

/// The detail text of the "not found" failure for a user.
pub open spec fn user_not_found_text(user_id: Seq<char>) -> Seq<char> {
    "User '"@ + user_id + "' not found"@
}

impl AppError {
    /// The kind of this failure.
    pub fn kind(&self) -> (k: ErrorKind)
        ensures
            k == self@.kind,
    {
        match self {
            AppError::BadRequest(_) => ErrorKind::BadRequest,
            AppError::Unauthorized(_) => ErrorKind::Unauthorized,
            AppError::Forbidden(_) => ErrorKind::Forbidden,
            AppError::NotFound(_) => ErrorKind::NotFound,
            AppError::Conflict(_) => ErrorKind::Conflict,
            AppError::RateLimited => ErrorKind::RateLimited,
            AppError::Validation(_) => ErrorKind::Validation,
            AppError::Internal(_) => ErrorKind::Internal,
            AppError::Server(_) => ErrorKind::Server,
            AppError::Config(_) => ErrorKind::Config,
            AppError::Database(_) => ErrorKind::Database,
            AppError::Io(_) => ErrorKind::Io,
            AppError::Json(_) => ErrorKind::Json,
            AppError::Jwt(_) => ErrorKind::Jwt,
            AppError::UrlParse(_) => ErrorKind::UrlParse,
        }
    }

    /// The HTTP status code that fits this failure: a 4xx code for the
    /// seven kinds a client can cause, 500 for the rest.
    pub fn status_code(&self) -> (code: u16)
        ensures
            code == status_of(self@.kind),
    {
        match self {
            AppError::BadRequest(_) => 400,
            AppError::Unauthorized(_) => 401,
            AppError::Forbidden(_) => 403,
            AppError::NotFound(_) => 404,
            AppError::Conflict(_) => 409,
            AppError::RateLimited => 429,
            AppError::Validation(_) => 422,
            _ => 500,
        }
    }

    /// Whether this failure is the server's: its status is in 500..=599.
    pub fn is_server_error(&self) -> (r: bool)
        ensures
            r == (500 <= status_of(self@.kind) <= 599),
    {
        let code = self.status_code();
        500 <= code && code <= 599
    }

    /// The failure for a short code that resolves to nothing.
    pub fn url_not_found(short_code: &str) -> (e: Self)
        ensures
            e@.kind == ErrorKind::NotFound,
            e@.detail == url_not_found_text(short_code@),
    {
        AppError::NotFound(concat3("URL with code '", short_code, "' not found"))
    }

    /// The failure for a user id that resolves to nothing.
    pub fn user_not_found(user_id: &str) -> (e: Self)
        ensures
            e@.kind == ErrorKind::NotFound,
            e@.detail == user_not_found_text(user_id@),
    {
        AppError::NotFound(concat3("User '", user_id, "' not found"))
    }

    /// The detail of this failure; empty for `RateLimited`.
    pub fn detail(&self) -> (d: &str)
        ensures
            d@ == self@.detail,
    {
        match self {
            AppError::BadRequest(m) => m.as_str(),
            AppError::Unauthorized(m) => m.as_str(),
            AppError::Forbidden(m) => m.as_str(),
            AppError::NotFound(m) => m.as_str(),
            AppError::Conflict(m) => m.as_str(),
            AppError::RateLimited => {
                proof {
                    reveal_strlit("");
                }
                assert(""@ =~= Seq::<char>::empty());
                ""
            },
            AppError::Validation(m) => m.as_str(),
            AppError::Internal(m) => m.as_str(),
            AppError::Server(m) => m.as_str(),
            AppError::Config(m) => m.as_str(),
            AppError::Database(m) => m.as_str(),
            AppError::Io(m) => m.as_str(),
            AppError::Json(m) => m.as_str(),
            AppError::Jwt(m) => m.as_str(),
            AppError::UrlParse(m) => m.as_str(),
        }
    }

    /// The label of a kind, as displayed before the detail.
    pub fn label(kind: ErrorKind) -> (l: &'static str)
        ensures
            l@ == label_of(kind),
    {
        match kind {
            ErrorKind::BadRequest => "Bad request: ",
            ErrorKind::Unauthorized => "Unauthorized: ",
            ErrorKind::Forbidden => "Forbidden: ",
            ErrorKind::NotFound => "Not found: ",
            ErrorKind::Conflict => "Conflict: ",
            ErrorKind::RateLimited => "Too many requests",
            ErrorKind::Validation => "Validation error: ",
            ErrorKind::Internal => "Internal server error: ",
            ErrorKind::Server => "Server error: ",
            ErrorKind::Config => "Configuration error: ",
            ErrorKind::Database => "Database error: ",
            ErrorKind::Io => "IO error: ",
            ErrorKind::Json => "JSON error: ",
            ErrorKind::Jwt => "JWT error: ",
            ErrorKind::UrlParse => "URL parsing error: ",
        }
    }

    /// The display text of this failure: the label of its kind followed by
    /// its detail.
    pub fn message(&self) -> (m: String)
        ensures
            m@ == label_of(self@.kind) + self@.detail,
    {
        concat(Self::label(self.kind()), self.detail())
    }
}

impl From<String> for AppError {
    fn from(s: String) -> (e: Self) {
        AppError::Internal(s)
    }
}

impl FromSpecImpl<String> for AppError {
    open spec fn obeys_from_spec() -> bool {
        true
    }

    open spec fn from_spec(s: String) -> Self {
        AppError::Internal(s)
    }
}

impl<'a> FromSpecImpl<&'a str> for AppError {
    /// The conversion allocates a string, which no specification expression
    /// can name; its contract is stated on `from` instead.
    open spec fn obeys_from_spec() -> bool {
        false
    }

    open spec fn from_spec(s: &'a str) -> Self {
        arbitrary()
    }
}

impl<'a> From<&'a str> for AppError {
    fn from(s: &'a str) -> (e: Self)
        ensures
            e@.kind == ErrorKind::Internal,
            e@.detail == s@,
    {
        AppError::Internal(s.to_string())
    }
}

// ---------------------------------------------------------------------
// Error response
// ---------------------------------------------------------------------

/// The body sent to a client when a request fails.
#[derive(Debug)]
pub struct ErrorResponse {
    /// Short name of the failure, such as "Not Found".
    pub error: String,
    /// The display text of the failure.
    pub message: String,
    /// The HTTP status code, once set.
    pub status_code: Option<u16>,
    /// Additional details as JSON text, once set.
    pub details: Option<String>,
}

/// The model of an [`ErrorResponse`].
pub struct ErrorResponseView {
    pub error: Seq<char>,
    pub message: Seq<char>,
    pub status_code: Option<u16>,
    pub details: Option<Seq<char>>,
}

impl View for ErrorResponse {
    type V = ErrorResponseView;

    open spec fn view(&self) -> ErrorResponseView {
        ErrorResponseView {
            error: self.error@,
            message: self.message@,
            status_code: self.status_code,
            details: opt_text(self.details),
        }
    }
}

impl ErrorResponse {
    /// A response with a name and a message, and neither status nor details.
    pub fn new(error: &str, message: &str) -> (r: Self)
        ensures
            r@ == (ErrorResponseView {
                error: error@,
                message: message@,
                status_code: None,
                details: None,
            }),
    {
        ErrorResponse {
            error: error.to_string(),
            message: message.to_string(),
            status_code: None,
            details: None,
        }
    }

    /// The same response with its status code set.
    pub fn with_status(self, status: u16) -> (r: Self)
        ensures
            r@ == (ErrorResponseView { status_code: Some(status), ..self@ }),
    {
        let mut out = self;
        out.status_code = Some(status);
        out
    }

    /// The same response with its details set.
    pub fn with_details(self, details: String) -> (r: Self)
        ensures
            r@ == (ErrorResponseView { details: Some(details@), ..self@ }),
    {
        let mut out = self;
        out.details = Some(details);
        out
    }
}

/// Whether a status is one of those the service answers failures with.
pub open spec fn failure_status(status: u16) -> bool {
    status == 400 || status == 401 || status == 403 || status == 404 || status == 409 || status
        == 422 || status == 429 || status == 500
}

/// The standard reason phrase of a status the service answers failures
/// with.
pub open spec fn reason_of(status: u16) -> Seq<char> {
    if status == 400 {
        "Bad Request"@
    } else if status == 401 {
        "Unauthorized"@
    } else if status == 403 {
        "Forbidden"@
    } else if status == 404 {
        "Not Found"@
    } else if status == 409 {
        "Conflict"@
    } else if status == 422 {
        "Unprocessable Entity"@
    } else if status == 429 {
        "Too Many Requests"@
    } else {
        "Internal Server Error"@
    }
}

/// Looks the reason phrase of a status up with
/// `http::StatusCode::canonical_reason`. Trusted: for the eight statuses the
/// service answers failures with, the phrase is the one the `http` crate
/// lists for it, spelled out in [`reason_of`].
#[verifier::external_body]
fn canonical_reason(status: u16) -> (r: Option<String>)
    requires
        failure_status(status),
    ensures
        r is Some,
        r->Some_0@ == reason_of(status),
{
    match axum::http::StatusCode::from_u16(status) {
        Ok(code) => match code.canonical_reason() {
            Some(reason) => Some(reason.to_string()),
            None => None,
        },
        Err(_) => None,
    }
}

/// The body that answers a failure with the given reason phrase: the
/// phrase, or `Error` without one, as name; the display text of the failure
/// as message; and its status.
pub open spec fn response_for(e: ErrorView, reason: Option<Seq<char>>) -> ErrorResponseView {
    ErrorResponseView {
        error: match reason {
            Some(phrase) => phrase,
            None => "Error"@,
        },
        message: label_of(e.kind) + e.detail,
        status_code: Some(status_of(e.kind)),
        details: None,
    }
}

impl AppError {
    /// The body that answers this failure, given the reason phrase of its
    /// status; see [`response_for`].
    pub fn response_with_reason(&self, reason: Option<String>) -> (r: ErrorResponse)
        ensures
            r@ == response_for(self@, opt_text(reason)),
    {
        let message = self.message();
        let name = match reason {
            Some(phrase) => phrase,
            None => "Error".to_string(),
        };
        ErrorResponse::new(name.as_str(), message.as_str()).with_status(self.status_code())
    }

    /// The body that answers this failure: the standard reason phrase of its
    /// status as name, its display text as message, and its status.
    pub fn to_response(&self) -> (r: ErrorResponse)
        ensures
            r@ == response_for(self@, Some(reason_of(status_of(self@.kind)))),
    {
        let reason = canonical_reason(self.status_code());
        self.response_with_reason(reason)
    }
}

// ---------------------------------------------------------------------
// Extensions of Result and Option
// ---------------------------------------------------------------------

/// Conversions of foreign results into results of the service.
pub trait ResultExt<T, E>: Sized {
    /// This value as a plain result.
    spec fn as_result(this: Self) -> std::result::Result<T, E>;

    /// Whether `text` is the display text of `e`.
    spec fn shown(e: E, text: String) -> bool;

    /// Keeps a success; turns an error into `Internal` with the error's
    /// display text as detail.
    fn map_internal(self) -> (r: Result<T>)
        ensures
            match Self::as_result(self) {
                Ok(v) => r == Ok::<T, AppError>(v),
                Err(e) => r matches Err(AppError::Internal(m)) && Self::shown(e, m),
            },
    ;

    /// Keeps a success; turns an error into whatever `f` makes of it.
    fn map_app_err<F: FnOnce(E) -> AppError>(self, f: F) -> (r: Result<T>)
        requires
            forall|e: E| Self::as_result(self) == Err::<T, E>(e) ==> f.requires((e,)),
        ensures
            match Self::as_result(self) {
                Ok(v) => r == Ok::<T, AppError>(v),
                Err(e) => r is Err && f.ensures((e,), r->Err_0),
            },
    ;
}

impl<T, E: core::fmt::Display> ResultExt<T, E> for std::result::Result<T, E> {
    open spec fn as_result(this: Self) -> std::result::Result<T, E> {
        this
    }

    open spec fn shown(e: E, text: String) -> bool {
        to_string_from_display_ensures::<E>(&e, text)
    }

    fn map_internal(self) -> (r: Result<T>) {
        match self {
            Ok(v) => Ok(v),
            Err(e) => Err(AppError::Internal(e.to_string())),
        }
    }

    fn map_app_err<F: FnOnce(E) -> AppError>(self, f: F) -> (r: Result<T>) {
        match self {
            Ok(v) => Ok(v),
            Err(e) => Err(f(e)),
        }
    }
}

/// Conversion of an absent value into a "not found" failure.
pub trait OptionExt<T>: Sized {
    /// The value this option holds, if any.
    spec fn held(this: Self) -> Option<T>;

    /// Keeps a present value; turns an absent one into `NotFound` with
    /// `message` as detail.
    fn ok_or_not_found(self, message: &str) -> (r: Result<T>)
        ensures
            match Self::held(self) {
                Some(v) => r == Ok::<T, AppError>(v),
                None => r is Err && r->Err_0@ == (ErrorView {
                    kind: ErrorKind::NotFound,
                    detail: message@,
                }),
            },
    ;
}

impl<T> OptionExt<T> for Option<T> {
    open spec fn held(this: Self) -> Option<T> {
        this
    }

    fn ok_or_not_found(self, message: &str) -> (r: Result<T>) {
        match self {
            Some(v) => Ok(v),
            None => Err(AppError::NotFound(message.to_string())),
        }
    }
}

} // verus!
