//! Errors of the API and the JSON body that describes them to clients.

use vstd::prelude::*;
use vstd::std_specs::convert::FromSpecImpl;

use crate::token::TokenError;

verus! {

/// Why a presented credential was not accepted.
#[derive(Debug, Clone, Copy, PartialEq, Eq, Structural)]
pub enum AuthError {
    InvalidToken,
    TokenExpired,
    InvalidTokenType,
    TokenHashError,
}

/// Extra detail attached to a bad request: the members of a JSON object whose
/// values are strings, in the order in which they are written.
#[derive(Debug)]
pub struct ErrorContext {
    pub entries: Vec<(String, String)>,
}

/// Every way in which a request can fail.
///
/// `Database` and `SPF` carry the text of the storage error and of the font
/// decoder's error, which is all that is ever shown of them.
#[derive(Debug)]
pub enum AppError {
    Auth(AuthError),
    Database(String),
    SPF(String),
    BadRequest(String, Option<ErrorContext>),
    Unauthorized(String),
    Forbidden(String),
    NotFound(String),
    Internal(String),
    TooManyRequests(String),
}

/// The JSON body of every error answer.
#[derive(Debug)]
pub struct ErrorResponse {
    pub error: String,
    pub message: String,
    pub context: Option<ErrorContext>,
}

/// `e` is a bad request that carries the message `msg` and no context.
pub open spec fn is_bad_request(e: AppError, msg: Seq<char>) -> bool {
    e matches AppError::BadRequest(m, None) && m@ == msg
}

/// `r` is success when `problem` is `None`, and otherwise the bad request that
/// carries the message in `problem`.
pub open spec fn answers(r: Result<(), AppError>, problem: Option<Seq<char>>) -> bool {
    match problem {
        None => r is Ok,
        Some(msg) => r matches Err(e) && is_bad_request(e, msg),
    }
}

/// The HTTP status with which an error is answered.
pub open spec fn status_of(e: AppError) -> u16 {
    match e {
        AppError::BadRequest(..) => 400,
        AppError::Unauthorized(_) => 401,
        AppError::Forbidden(_) => 403,
        AppError::NotFound(_) => 404,
        AppError::Internal(_) => 500,
        AppError::TooManyRequests(_) => 429,
        AppError::Database(_) => 500,
        AppError::SPF(_) => 500,
        AppError::Auth(_) => 401,
    }
}

/// The machine-readable code in the `error` member of the answer.
pub open spec fn code_of(e: AppError) -> Seq<char> {
    match e {
        AppError::BadRequest(..) => "BAD_REQUEST"@,
        AppError::Unauthorized(_) => "UNAUTHORIZED"@,
        AppError::Forbidden(_) => "FORBIDDEN"@,
        AppError::NotFound(_) => "NOT_FOUND"@,
        AppError::Internal(_) => "INTERNAL_ERROR"@,
        AppError::TooManyRequests(_) => "RATE_LIMIT_EXCEEDED"@,
        AppError::Database(_) => "DATABASE_ERROR"@,
        AppError::SPF(_) => "SPF_ERROR"@,
        AppError::Auth(_) => "AUTH_ERROR"@,
    }
}

/// The fixed text shown for each kind of credential failure.
pub open spec fn auth_message(a: AuthError) -> Seq<char> {
    match a {
        AuthError::InvalidToken => "Invalid authentication token"@,
        AuthError::TokenExpired => "Authentication token has expired"@,
        AuthError::InvalidTokenType => "Invalid token type provided"@,
        AuthError::TokenHashError => "Security processing error"@,
    }
}

/// The human-readable `message` member of the answer.
pub open spec fn message_of(e: AppError) -> Seq<char> {
    match e {
        AppError::BadRequest(m, _) => m@,
        AppError::Unauthorized(m) => m@,
        AppError::Forbidden(m) => m@,
        AppError::NotFound(m) => m@,
        AppError::Internal(m) => m@,
        AppError::TooManyRequests(m) => m@,
        AppError::Database(m) => m@,
        AppError::SPF(m) => m@,
        AppError::Auth(a) => auth_message(a),
    }
}

fn owned(s: &str) -> (r: String)
    ensures
        r@ == s@,
{
    s.to_owned()
}

impl AppError {
    /// A bad request with the given message and no context.
    pub fn bad_request(msg: String) -> (e: Self)
        ensures
            e matches AppError::BadRequest(m, None) && m@ == msg@,
    {
        AppError::BadRequest(msg, None)
    }

    /// A bad request with the given message and context.
    pub fn with_context(msg: String, context: ErrorContext) -> (e: Self)
        ensures
            e matches AppError::BadRequest(m, Some(c)) && m@ == msg@ && c == context,
    {
        AppError::BadRequest(msg, Some(context))
    }

    /// The status and the JSON body with which the error is answered.
    pub fn into_response_parts(self) -> (r: (u16, ErrorResponse))
        ensures
            r.0 == status_of(self),
            r.1.error@ == code_of(self),
            r.1.message@ == message_of(self),
            r.1.context == (match self {
                AppError::BadRequest(_, ctx) => ctx,
                _ => None,
            }),
    {
        let (status, code, message, context): (u16, &str, String, Option<ErrorContext>) = match self {
            AppError::BadRequest(msg, ctx) => (400, "BAD_REQUEST", msg, ctx),
            AppError::Unauthorized(msg) => (401, "UNAUTHORIZED", msg, None),
            AppError::Forbidden(msg) => (403, "FORBIDDEN", msg, None),
            AppError::NotFound(msg) => (404, "NOT_FOUND", msg, None),
            AppError::Internal(msg) => (500, "INTERNAL_ERROR", msg, None),
            AppError::TooManyRequests(msg) => (429, "RATE_LIMIT_EXCEEDED", msg, None),
            AppError::Database(msg) => (500, "DATABASE_ERROR", msg, None),
            AppError::SPF(msg) => (500, "SPF_ERROR", msg, None),
            AppError::Auth(err) => {
                let msg: &str = match err {
                    AuthError::InvalidToken => "Invalid authentication token",
                    AuthError::TokenExpired => "Authentication token has expired",
                    AuthError::InvalidTokenType => "Invalid token type provided",
                    AuthError::TokenHashError => "Security processing error",
                };
                (401, "AUTH_ERROR", owned(msg), None)
            },
        };
        (status, ErrorResponse { error: owned(code), message, context })
    }
}

impl From<AuthError> for AppError {
    fn from(err: AuthError) -> (e: Self) {
        AppError::Auth(err)
    }
}

impl FromSpecImpl<AuthError> for AppError {
    open spec fn obeys_from_spec() -> bool {
        true
    }

    open spec fn from_spec(v: AuthError) -> AppError {
        AppError::Auth(v)
    }
}

impl From<TokenError> for AppError {
    fn from(err: TokenError) -> (e: Self) {
        AppError::Auth(AuthError::from(err))
    }
}

impl FromSpecImpl<TokenError> for AppError {
    open spec fn obeys_from_spec() -> bool {
        true
    }

    open spec fn from_spec(v: TokenError) -> AppError {
        AppError::Auth(AuthError::TokenHashError)
    }
}

} // verus!
