//! What is read from the headers of a request: the bearer token, who is
//! asking, from where, and under which request identifier.

use crate::error::{AppError, ErrorKind, ErrorView, Outcome, Result};
use crate::models::user::Claims;
use crate::models::{random_id, random_id_shape};
use crate::text::{
    before_first, is_prefix, opt_str, opt_text, skip_chars, starts_with, take_before, trim, trimmed,
};
use crate::validation::{faults_text, Validate};
use vstd::prelude::*;
use vstd::string::*;

verus! {

/// Name of the header that carries the request identifier.
pub const REQUEST_ID_HEADER: &'static str = "X-Request-Id";

/// Length of a generated request identifier.
pub const REQUEST_ID_LENGTH: usize = 12;

/// The token of a request that carries `Authorization: Bearer <token>`.
#[derive(Debug)]
pub struct BearerToken(pub String);

/// The user a good token was issued to.
#[derive(Debug)]
pub struct AuthUser(pub String);

/// The user of a request that may or may not be logged in.
#[derive(Debug)]
pub struct OptionalAuth {
    user_id: Option<String>,
}

/// The identifier of a request.
#[derive(Debug)]
pub struct RequestId(pub String);

/// The address a request came from, if it is known.
#[derive(Debug)]
pub struct ClientIp(pub Option<String>);

/// The client software of a request, if it names itself.
#[derive(Debug)]
pub struct UserAgent(pub Option<String>);

/// A request body that was checked and found without fault.
#[derive(Debug)]
pub struct ValidatedJson<T>(pub T);

/// The failure for a request without an `Authorization` header.
pub open spec fn missing_header() -> ErrorView {
    ErrorView { kind: ErrorKind::Unauthorized, detail: "Missing Authorization header"@ }
}

/// The failure for an `Authorization` header that does not begin with
/// `Bearer `.
pub open spec fn invalid_header_format() -> ErrorView {
    ErrorView { kind: ErrorKind::Unauthorized, detail: "Invalid Authorization header format"@ }
}

/// The failure for an `Authorization` header whose token is empty.
pub open spec fn empty_token() -> ErrorView {
    ErrorView { kind: ErrorKind::Unauthorized, detail: "Empty token"@ }
}

/// The bearer token of a request, given the value of its `Authorization`
/// header: what follows `Bearer `, which must not be empty.
pub open spec fn bearer_of(header: Option<Seq<char>>) -> Outcome<Seq<char>> {
    match header {
        None => Err(missing_header()),
        Some(value) => if !is_prefix("Bearer "@, value) {
            Err(invalid_header_format())
        } else if value.len() == 7 {
            Err(empty_token())
        } else {
            Ok(value.skip(7))
        },
    }
}

/// The address of a client, given the values of the `X-Forwarded-For` and
/// `X-Real-IP` headers: the first entry of the former, trimmed, where that
/// header is present, and the latter otherwise.
pub open spec fn client_ip_of(
    forwarded_for: Option<Seq<char>>,
    real_ip: Option<Seq<char>>,
) -> Option<Seq<char>> {
    match forwarded_for {
        Some(list) => Some(trimmed(before_first(list, ','))),
        None => real_ip,
    }
}

impl BearerToken {
    /// The bearer token of a request, given the value of its
    /// `Authorization` header; see [`bearer_of`].
    pub fn from_header(header: Option<&str>) -> (r: Result<Self>)
        ensures
            match bearer_of(opt_str(header)) {
                Ok(token) => r is Ok && r->Ok_0.0@ == token,
                Err(e) => r is Err && r->Err_0@ == e,
            },
    {
        proof {
            reveal_strlit("Bearer ");
        }
        let value = match header {
            Some(value) => value,
            None => {
                return Err(AppError::Unauthorized("Missing Authorization header".to_string()));
            },
        };
        if !starts_with(value, "Bearer ") {
            return Err(AppError::Unauthorized("Invalid Authorization header format".to_string()));
        }
        let token = skip_chars(value, 7);
        if token.unicode_len() == 0 {
            return Err(AppError::Unauthorized("Empty token".to_string()));
        }
        Ok(BearerToken(token.to_string()))
    }
}

impl AuthUser {
    /// The user that good claims were issued to.
    pub fn from_claims(claims: Claims) -> (r: Self)
        ensures
            r.0@ == claims@.sub,
    {
        AuthUser(claims.sub)
    }
}

impl View for OptionalAuth {
    type V = Option<Seq<char>>;

    closed spec fn view(&self) -> Option<Seq<char>> {
        opt_text(self.user_id)
    }
}

impl Default for OptionalAuth {
    fn default() -> (r: Self)
        ensures
            r@ is None,
    {
        OptionalAuth { user_id: None }
    }
}

impl OptionalAuth {
    /// Nobody when authentication failed, the user otherwise.
    pub fn from_auth(auth: Result<AuthUser>) -> (r: Self)
        ensures
            r@ == (match auth {
                Ok(user) => Some(user.0@),
                Err(_) => None,
            }),
    {
        match auth {
            Ok(user) => OptionalAuth { user_id: Some(user.0) },
            Err(_) => OptionalAuth { user_id: None },
        }
    }

    /// The identifier of the user, if somebody is logged in.
    pub fn user_id(&self) -> (r: Option<String>)
        ensures
            opt_text(r) == self@,
    {
        crate::text::clone_opt_text(&self.user_id)
    }

    /// Whether somebody is logged in.
    pub fn is_authenticated(&self) -> (r: bool)
        ensures
            r == self@ is Some,
    {
        self.user_id.is_some()
    }
}

impl RequestId {
    /// The identifier of a request: the one its `X-Request-Id` header
    /// carries, or else a fresh random one of 12 characters.
    pub fn from_header(header: Option<&str>) -> (r: Self)
        ensures
            match header {
                Some(value) => r.0@ == value@,
                None => random_id_shape(r.0@, REQUEST_ID_LENGTH as nat),
            },
    {
        match header {
            Some(value) => RequestId(value.to_string()),
            None => RequestId(generate_request_id()),
        }
    }
}

/// A fresh random request identifier of 12 URL-safe characters.
pub fn generate_request_id() -> (id: String)
    ensures
        random_id_shape(id@, REQUEST_ID_LENGTH as nat),
{
    random_id(REQUEST_ID_LENGTH)
}

impl ClientIp {
    /// The address of a client, given the values of the `X-Forwarded-For`
    /// and `X-Real-IP` headers; see [`client_ip_of`].
    pub fn from_headers(forwarded_for: Option<&str>, real_ip: Option<&str>) -> (r: Self)
        ensures
            opt_text(r.0) == client_ip_of(opt_str(forwarded_for), opt_str(real_ip)),
    {
        match forwarded_for {
            Some(list) => ClientIp(Some(trim(take_before(list, ',')).to_string())),
            None => match real_ip {
                Some(ip) => ClientIp(Some(ip.to_string())),
                None => ClientIp(None),
            },
        }
    }
}

impl UserAgent {
    /// The client software, given the value of the `User-Agent` header.
    pub fn from_header(header: Option<&str>) -> (r: Self)
        ensures
            opt_text(r.0) == opt_str(header),
    {
        match header {
            Some(value) => UserAgent(Some(value.to_string())),
            None => UserAgent(None),
        }
    }
}

impl<T: Validate> ValidatedJson<T> {
    /// Wraps a value that has no fault; a value with faults is answered by
    /// a `Validation` failure that lists them.
    pub fn new(data: T) -> (r: Result<Self>)
        ensures
            data.faults().len() == 0 ==> r is Ok && r->Ok_0.0 == data,
            data.faults().len() > 0 ==> r is Err && r->Err_0@ == (ErrorView {
                kind: ErrorKind::Validation,
                detail: faults_text(data.faults()),
            }),
    {
        match data.validate() {
            Ok(()) => Ok(ValidatedJson(data)),
            Err(errors) => Err(AppError::from(errors)),
        }
    }
}

} // verus!
