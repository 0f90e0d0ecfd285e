//! The records the API reads and writes, as plain values.

use vstd::prelude::*;

verus! {

/// Seconds in thirty days.
pub const THIRTY_DAYS_SECS: i64 = 2_592_000;

/// The last second, counted from the Unix epoch, of the latest instant that a
/// UTC date-time can hold (the end of the year 262142).
pub const MAX_UTC_SECS: i64 = 8_210_266_876_799;

/// An instant in UTC: whole seconds since the Unix epoch and the nanoseconds
/// past that second.
#[derive(Debug, Clone, Copy, PartialEq, Eq, Structural)]
pub struct UtcTime {
    pub secs: i64,
    pub nanos: u32,
}

impl UtcTime {
    /// `self` is strictly later than `other`: compared by seconds, then by
    /// nanoseconds, as chrono orders its date-times.
    pub open spec fn later(self, other: UtcTime) -> bool {
        self.secs > other.secs || (self.secs == other.secs && self.nanos > other.nanos)
    }

    /// Whether `self` is strictly later than `other`.
    pub fn is_after(&self, other: &UtcTime) -> (r: bool)
        ensures
            r == self.later(*other),
    {
        self.secs > other.secs || (self.secs == other.secs && self.nanos > other.nanos)
    }

    /// The instant thirty days later.
    pub fn plus_thirty_days(&self) -> (r: UtcTime)
        requires
            self.secs + THIRTY_DAYS_SECS <= MAX_UTC_SECS,
        ensures
            r.secs == self.secs + THIRTY_DAYS_SECS,
            r.nanos == self.nanos,
    {
        UtcTime { secs: self.secs + THIRTY_DAYS_SECS, nanos: self.nanos }
    }
}

/// Settings of the service.
#[derive(Debug, Clone)]
pub struct AppConfig {
    pub trusted_domains: Vec<String>,
}

impl Default for AppConfig {
    fn default() -> (r: Self)
        ensures
            r.trusted_domains@.len() == 0,
    {
        AppConfig { trusted_domains: Vec::new() }
    }
}

/// A user, known by id only.
#[derive(Debug, Clone, Copy, PartialEq, Eq, Structural)]
pub struct User {
    pub id: i64,
}

/// What anyone may see of a user.
#[derive(Debug)]
pub struct PublicUser {
    pub id: i64,
    pub username: String,
}

/// A font with its tags, versions and counters.
#[derive(Debug)]
pub struct FontWithDetails {
    pub id: i64,
    pub name: String,
    pub slug: String,
    pub description: Option<String>,
    pub file_path: String,
    pub download_count: i64,
    pub favorite_count: i64,
    pub tags: Vec<String>,
    pub versions: Vec<FontVersionInfo>,
    pub comment_count: i64,
}

/// One uploaded version of a font.
#[derive(Debug)]
pub struct FontVersionInfo {
    pub id: i64,
    pub version_number: i64,
    pub file_path: String,
    pub changelog: Option<String>,
    pub created_at: UtcTime,
}

/// A comment together with its author.
#[derive(Debug)]
pub struct CommentWithUser {
    pub id: i64,
    pub text: String,
    pub created_at: UtcTime,
    pub user: PublicUser,
}

/// The answer to a successful login or registration.
#[derive(Debug)]
pub struct AuthResponse {
    pub user: PublicUser,
    pub token: String,
    pub token_type: String,
    pub expires_at: Option<UtcTime>,
}

/// The answer to the creation of an API key: the key itself, shown once.
#[derive(Debug)]
pub struct APIKeyResponse {
    pub token: String,
}

/// What a user may see of one of their own tokens.
#[derive(Debug)]
pub struct TokenInfo {
    pub id: i64,
    pub name: Option<String>,
    pub token_type: String,
    pub created_at: UtcTime,
    pub last_used_at: Option<UtcTime>,
    pub expires_at: Option<UtcTime>,
}

/// Credentials of a login.
#[derive(Debug)]
pub struct LoginRequest {
    pub email: String,
    pub password: String,
}

/// Fields of a registration.
#[derive(Debug)]
pub struct RegisterRequest {
    pub username: String,
    pub email: String,
    pub password: String,
}

/// The name of a new API key.
#[derive(Debug)]
pub struct CreateApiKeyRequest {
    pub name: String,
}

/// The text of a new comment.
#[derive(Debug)]
pub struct CreateCommentRequest {
    pub text: String,
}

/// Parameters of a font search.
#[derive(Debug)]
pub struct SearchQuery {
    pub query: Option<String>,
    pub tags: Option<String>,
    pub limit: Option<i64>,
}

/// A stored access token, as the token table holds it; `token` is the hash
/// of the token, never the token itself.
#[derive(Debug)]
pub struct AccessTokenRecord {
    pub id: i64,
    pub user_id: i64,
    pub token: String,
    pub token_type: String,
    pub name: Option<String>,
    pub expires_at: Option<UtcTime>,
    pub last_used_at: Option<UtcTime>,
    pub created_at: UtcTime,
}

} // verus!
