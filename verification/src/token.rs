//! Access tokens: their kinds, how they are made, hashed and recognised.

use vstd::prelude::*;
use vstd::std_specs::convert::FromSpecImpl;
use vstd::string::{StringExecFns, StringSliceAdditionalSpecFns};
use vstd::utf8::{decode_utf8, encode_utf8, is_ascii_chars, is_char_boundary};

use argon2::{Argon2, PasswordHasher, PasswordVerifier};
use password_hash::PasswordHash;
use rand::distr::Alphanumeric;
use rand::rngs::ThreadRng;
use rand::RngExt;

use crate::error::{AppError, AuthError};
use crate::model::{AccessTokenRecord, MAX_UTC_SECS, THIRTY_DAYS_SECS, User, UtcTime};
use crate::ratelimit::RateLimitTier;
use crate::text::same_text;

verus! {

broadcast use vstd::string::group_string_axioms, vstd::utf8::group_utf8_lib;

/// Most sessions a user keeps; a new one evicts the oldest.
pub const MAX_SESSIONS_PER_USER: usize = 10;
/// Most API keys a user may hold.
pub const MAX_API_KEYS_PER_USER: usize = 3;
/// Number of random characters after the prefix of a token.
pub const TOKEN_RANDOM_LEN: usize = 64;

#[verifier::external_type_specification]
#[verifier::external_body]
pub struct ExThreadRng(ThreadRng);

/// Failure of the password-hashing machinery.
#[derive(Debug, Clone, Copy, PartialEq, Eq, Structural)]
pub enum TokenError {
    HashError,
    InvalidHash,
}

impl From<TokenError> for AuthError {
    fn from(err: TokenError) -> (e: Self) {
        AuthError::TokenHashError
    }
}

impl FromSpecImpl<TokenError> for AuthError {
    open spec fn obeys_from_spec() -> bool {
        true
    }

    open spec fn from_spec(v: TokenError) -> AuthError {
        AuthError::TokenHashError
    }
}

/// The two kinds of credential.
#[derive(Debug, Clone, Copy, PartialEq, Eq, Structural)]
pub enum TokenType {
    Session,
    ApiKey,
}

/// The kind of token stored under a name, if the name is known.
pub open spec fn token_type_named(name: Seq<char>) -> Option<TokenType> {
    if name == "session"@ {
        Some(TokenType::Session)
    } else if name == "api_key"@ {
        Some(TokenType::ApiKey)
    } else {
        None
    }
}

/// The kind of token that starts with a four-character prefix, if the prefix is known.
pub open spec fn token_type_of_prefix(prefix: Seq<char>) -> Option<TokenType> {
    if prefix == "ses_"@ {
        Some(TokenType::Session)
    } else if prefix == "fgk_"@ {
        Some(TokenType::ApiKey)
    } else {
        None
    }
}

impl TokenType {
    /// The name under which the kind is stored.
    pub open spec fn name(self) -> Seq<char> {
        match self {
            TokenType::Session => "session"@,
            TokenType::ApiKey => "api_key"@,
        }
    }

    /// The prefix of every token of the kind.
    pub open spec fn prefix_text(self) -> Seq<char> {
        match self {
            TokenType::Session => "ses_"@,
            TokenType::ApiKey => "fgk_"@,
        }
    }

    /// The tier under which requests made with such a token are limited.
    pub open spec fn tier(self) -> RateLimitTier {
        match self {
            TokenType::Session => RateLimitTier::Authenticated,
            TokenType::ApiKey => RateLimitTier::ApiKey,
        }
    }

    /// The name under which the kind is stored.
    pub fn as_str(&self) -> (r: &str)
        ensures
            r@ == self.name(),
    {
        match self {
            TokenType::Session => "session",
            TokenType::ApiKey => "api_key",
        }
    }

    /// The kind stored under `s`, if any.
    pub fn from_str(s: &str) -> (r: Option<Self>)
        ensures
            r == token_type_named(s@),
    {
        if same_text(s, "session") {
            Some(TokenType::Session)
        } else if same_text(s, "api_key") {
            Some(TokenType::ApiKey)
        } else {
            None
        }
    }

    /// The kind whose tokens start with `s`, if any.
    pub fn from_prefix(s: &str) -> (r: Option<Self>)
        ensures
            r == token_type_of_prefix(s@),
    {
        if same_text(s, "ses_") {
            Some(TokenType::Session)
        } else if same_text(s, "fgk_") {
            Some(TokenType::ApiKey)
        } else {
            None
        }
    }

    /// The prefix of every token of the kind.
    pub fn prefix(&self) -> (r: &str)
        ensures
            r@ == self.prefix_text(),
    {
        match self {
            TokenType::Session => "ses_",
            TokenType::ApiKey => "fgk_",
        }
    }

    /// The tier under which requests made with such a token are limited.
    pub fn rate_limit_tier(&self) -> (r: RateLimitTier)
        ensures
            r == self.tier(),
    {
        match self {
            TokenType::Session => RateLimitTier::Authenticated,
            TokenType::ApiKey => RateLimitTier::ApiKey,
        }
    }

    /// When a token of the kind made at `now` expires: sessions after thirty
    /// days, API keys never.
    pub fn default_expiration(&self, now: UtcTime) -> (r: Option<UtcTime>)
        requires
            *self == TokenType::Session ==> now.secs + THIRTY_DAYS_SECS <= MAX_UTC_SECS,
        ensures
            r == (match self {
                TokenType::Session => Some(
                    UtcTime { secs: (now.secs + THIRTY_DAYS_SECS) as i64, nanos: now.nanos },
                ),
                TokenType::ApiKey => None,
            }),
    {
        match self {
            TokenType::Session => Some(now.plus_thirty_days()),
            TokenType::ApiKey => None,
        }
    }
}

// ---------------------------------------------------------------- random tokens

/// An ASCII letter or digit.
pub open spec fn ascii_alphanumeric(c: char) -> bool {
    ('a' <= c && c <= 'z') || ('A' <= c && c <= 'Z') || ('0' <= c && c <= '9')
}

/// `rand::rng` of rand: the thread-local generator, seeded from the operating
/// system. Nothing is stated of it; rand panics if the first seeding fails.
#[verifier::external_body]
fn thread_rng() -> ThreadRng {
    rand::rng()
}

/// `RngExt::sample_iter` of rand with the `Alphanumeric` distribution, the
/// first `len` samples taken as characters. rand's source draws each sample
/// from `A`-`Z`, `a`-`z` and `0`-`9`; which ones come out is left open.
#[verifier::external_body]
fn alphanumeric_string(rng: ThreadRng, len: usize) -> (r: String)
    ensures
        r@.len() == len,
        forall|i: int| 0 <= i < len ==> ascii_alphanumeric(#[trigger] r@[i]),
{
    rng.sample_iter(&Alphanumeric).take(len).map(char::from).collect()
}

/// A token of the given kind made of the given random part: the kind's
/// prefix followed by `random`.
pub fn token_with_random(token_type: &TokenType, random: &str) -> (r: String)
    ensures
        r@ == token_type.prefix_text() + random@,
{
    let prefix: &str = token_type.prefix();
    let mut token: String = prefix.to_owned();
    token.append(random);
    token
}

/// A fresh token of the given kind: its prefix followed by sixty-four random
/// ASCII letters and digits.
pub fn generate_token(token_type: &TokenType) -> (r: String)
    ensures
        r@.len() == 68,
        r@.subrange(0, 4) == token_type.prefix_text(),
        forall|i: int| 4 <= i < 68 ==> ascii_alphanumeric(#[trigger] r@[i]),
{
    proof {
        reveal_strlit("ses_");
        reveal_strlit("fgk_");
    }
    let random: String = alphanumeric_string(thread_rng(), TOKEN_RANDOM_LEN);
    let token: String = token_with_random(token_type, random.as_str());
    assert(token@.subrange(0, 4) =~= token_type.prefix_text());
    assert forall|i: int| 4 <= i < 68 implies ascii_alphanumeric(#[trigger] token@[i]) by {
        assert(token@[i] == random@[i - 4]);
    }
    token
}

// ---------------------------------------------------------------- hashing

/// Whether the text is a well-formed PHC password-hash string.
pub uninterp spec fn phc_hash_parses(hash: Seq<char>) -> bool;

/// Whether the Argon2 verifier accepts the password against the PHC string.
pub uninterp spec fn argon2_accepts(password: Seq<u8>, hash: Seq<char>) -> bool;

/// The PHC string that Argon2, with its default parameters, makes of a
/// password and a salt, if it makes one.
pub uninterp spec fn argon2_hash_of(password: Seq<u8>, salt: Seq<u8>) -> Option<Seq<char>>;

/// `password_hash::generate_salt`: sixteen bytes from the operating system's
/// secure generator. Nothing is stated of them but their number; the crate
/// panics if the generator fails.
#[verifier::external_body]
fn random_salt() -> (salt: Vec<u8>)
    ensures
        salt@.len() == 16,
{
    password_hash::generate_salt().to_vec()
}

/// `PasswordHasher::hash_password_with_salt` of argon2 with `Argon2::default()`,
/// the hash written out as its PHC string. Its result is named by
/// `argon2_hash_of`. The source builds the PHC string from the algorithm,
/// version, parameters, salt and output, and the verifier recomputes the output
/// from exactly these: so a string that comes out parses, and the verifier
/// accepts the same password against it. With the default parameters the only
/// refusals the source shows are a password longer than `0xFFFF_FFFF` bytes, a
/// salt outside the 8 to 48 bytes that a PHC salt may have, and a failure to
/// allocate the working memory; the last is taken not to happen here, as vstd
/// takes every allocation of std to succeed.
#[verifier::external_body]
fn argon2_hash_with_salt(password: &[u8], salt: &[u8]) -> (r: Option<String>)
    ensures
        match r {
            Some(h) => argon2_hash_of(password@, salt@) == Some(h@) && phc_hash_parses(h@)
                && argon2_accepts(password@, h@),
            None => argon2_hash_of(password@, salt@) is None,
        },
        password@.len() <= 0xFFFF_FFFF && 8 <= salt@.len() <= 48 ==> r is Some,
{
    Argon2::default().hash_password_with_salt(password, salt).ok().map(|h| h.to_string())
}

/// `PasswordHash::new` of password-hash: whether the text parses as a PHC string.
#[verifier::external_body]
fn phc_parses(hash: &str) -> (r: bool)
    ensures
        r == phc_hash_parses(hash@),
{
    PasswordHash::new(hash).is_ok()
}

/// `PasswordVerifier::verify_password` of argon2 against a PHC string: whether
/// it succeeds, named by `argon2_accepts`. The source parses the string first
/// and fails when it does not parse.
#[verifier::external_body]
fn argon2_verify(password: &[u8], hash: &str) -> (r: bool)
    ensures
        r == argon2_accepts(password@, hash@),
        !phc_hash_parses(hash@) ==> !r,
{
    Argon2::default().verify_password(password, hash).is_ok()
}

/// What checking a token against a stored hash gives.
pub open spec fn verify_outcome(token: Seq<u8>, hash: Seq<char>) -> Result<bool, TokenError> {
    if !phc_hash_parses(hash) {
        Err(TokenError::InvalidHash)
    } else {
        Ok(argon2_accepts(token, hash))
    }
}

/// Hashes a token (or password) with Argon2 under a fresh random salt. The
/// hash differs from call to call; whichever comes out, checking the same
/// token against it succeeds. Only a token longer than Argon2 accepts
/// (`0xFFFF_FFFF` bytes) is refused.
pub fn hash_token(token: &str) -> (r: Result<String, TokenError>)
    ensures
        match r {
            Ok(h) => verify_outcome(token.spec_bytes(), h@) == Ok::<bool, TokenError>(true),
            Err(e) => e == TokenError::HashError && token.spec_bytes().len() > 0xFFFF_FFFF,
        },
        token.spec_bytes().len() <= 0xFFFF_FFFF ==> r is Ok,
{
    let salt: Vec<u8> = random_salt();
    match argon2_hash_with_salt(token.as_bytes(), salt.as_slice()) {
        Some(h) => Ok(h),
        None => Err(TokenError::HashError),
    }
}

/// Checks a token against a stored hash: `InvalidHash` when the stored text is
/// not a PHC string, and otherwise whether the token matches.
pub fn verify_token(token: &str, hash: &str) -> (r: Result<bool, TokenError>)
    ensures
        r == verify_outcome(token.spec_bytes(), hash@),
{
    if !phc_parses(hash) {
        return Err(TokenError::InvalidHash);
    }
    Ok(argon2_verify(token.as_bytes(), hash))
}

// ---------------------------------------------------------------- recognising tokens

/// The kind of token announced by the first four bytes of a presented token.
pub open spec fn presented_type(bytes: Seq<u8>) -> Result<TokenType, AppError> {
    if bytes.len() < 4 {
        Err(AppError::Auth(AuthError::InvalidToken))
    } else {
        match token_type_of_prefix(decode_utf8(bytes.subrange(0, 4))) {
            Some(t) => Ok(t),
            None => Err(AppError::Auth(AuthError::InvalidToken)),
        }
    }
}

/// The kind of token announced by the prefix of a presented token. A token of
/// four bytes or more must have a character boundary after its fourth byte.
pub fn token_type_of(token: &str) -> (r: Result<TokenType, AppError>)
    requires
        token.spec_bytes().len() >= 4 ==> is_char_boundary(token.spec_bytes(), 4),
    ensures
        r == presented_type(token.spec_bytes()),
{
    if token.as_bytes().len() < 4 {
        return Err(AppError::Auth(AuthError::InvalidToken));
    }
    let (prefix, _rest) = token.split_at(4);
    assert(decode_utf8(prefix.spec_bytes()) == prefix@);
    match TokenType::from_prefix(prefix) {
        Some(t) => Ok(t),
        None => Err(AppError::Auth(AuthError::InvalidToken)),
    }
}

/// Where the first stored hash that a token matches stands, scanning in order;
/// an error if a hash met before any match does not parse.
pub open spec fn first_match(token: Seq<u8>, hashes: Seq<Seq<char>>) -> Result<Option<int>, TokenError>
    decreases hashes.len(),
{
    if hashes.len() == 0 {
        Ok(None)
    } else if !phc_hash_parses(hashes[0]) {
        Err(TokenError::InvalidHash)
    } else if argon2_accepts(token, hashes[0]) {
        Ok(Some(0))
    } else {
        match first_match(token, hashes.drop_first()) {
            Ok(Some(i)) => Ok(Some(i + 1)),
            other => other,
        }
    }
}

/// The stored hashes of a list of token records.
pub open spec fn record_hashes(records: Seq<AccessTokenRecord>) -> Seq<Seq<char>> {
    records.map_values(|r: AccessTokenRecord| r.token@)
}

/// What presenting a token gives, given the stored tokens of its kind and the
/// time: the owner and kind of the first record whose hash the token matches,
/// unless that record has expired or names an unknown kind.
pub open spec fn record_outcome(
    token: Seq<u8>,
    records: Seq<AccessTokenRecord>,
    now: UtcTime,
) -> Result<(User, TokenType), AppError> {
    match first_match(token, record_hashes(records)) {
        Err(_) => Err(AppError::Auth(AuthError::TokenHashError)),
        Ok(None) => Err(AppError::Auth(AuthError::InvalidToken)),
        Ok(Some(i)) => {
            let rec = records[i];
            if rec.expires_at is Some && now.later(rec.expires_at->0) {
                Err(AppError::Auth(AuthError::TokenExpired))
            } else {
                match token_type_named(rec.token_type@) {
                    None => Err(AppError::Auth(AuthError::InvalidTokenType)),
                    Some(t) => Ok((User { id: rec.user_id }, t)),
                }
            }
        },
    }
}

fn find_record(token: &str, records: &Vec<AccessTokenRecord>) -> (r: Result<Option<usize>, TokenError>)
    ensures
        match r {
            Ok(Some(i)) => first_match(token.spec_bytes(), record_hashes(records@)) == Ok::<
                Option<int>,
                TokenError,
            >(Some(i as int)) && i < records@.len(),
            Ok(None) => first_match(token.spec_bytes(), record_hashes(records@)) == Ok::<
                Option<int>,
                TokenError,
            >(None),
            Err(_) => first_match(token.spec_bytes(), record_hashes(records@)) is Err,
        },
{
    let ghost all = record_hashes(records@);
    let ghost tb = token.spec_bytes();
    let n: usize = records.len();
    let mut i: usize = 0;
    assert(all.skip(0) =~= all);
    while i < n
        invariant
            n == records@.len(),
            all == record_hashes(records@),
            tb == token.spec_bytes(),
            i <= n,
            forall|k: int|
                0 <= k < i ==> phc_hash_parses(#[trigger] all[k]) && !argon2_accepts(tb, all[k]),
            first_match(tb, all) == (match first_match(tb, all.skip(i as int)) {
                Ok(Some(j)) => Ok(Some(j + i)),
                other => other,
            }),
        decreases n - i,
    {
        let hash: &str = records[i].token.as_str();
        assert(all[i as int] == hash@);
        assert(all.skip(i as int)[0] == hash@);
        assert(all.skip(i as int).drop_first() =~= all.skip(i + 1));
        match verify_token(token, hash) {
            Err(e) => {
                return Err(e);
            },
            Ok(true) => {
                return Ok(Some(i));
            },
            Ok(false) => {},
        }
        i = i + 1;
    }
    assert(all.skip(n as int).len() == 0);
    Ok(None)
}

/// Recognises a presented token among the stored records of its kind, at time
/// `now`.
pub fn match_token_record(token: &str, records: &Vec<AccessTokenRecord>, now: UtcTime) -> (r:
    Result<(User, TokenType), AppError>)
    ensures
        r == record_outcome(token.spec_bytes(), records@, now),
{
    let found: Option<usize> = match find_record(token, records) {
        Err(_) => {
            return Err(AppError::Auth(AuthError::TokenHashError));
        },
        Ok(f) => f,
    };
    let i: usize = match found {
        None => {
            return Err(AppError::Auth(AuthError::InvalidToken));
        },
        Some(i) => i,
    };
    let rec: &AccessTokenRecord = &records[i];
    if let Some(expires_at) = rec.expires_at {
        if now.is_after(&expires_at) {
            return Err(AppError::Auth(AuthError::TokenExpired));
        }
    }
    match TokenType::from_str(rec.token_type.as_str()) {
        None => Err(AppError::Auth(AuthError::InvalidTokenType)),
        Some(t) => Ok((User { id: rec.user_id }, t)),
    }
}

// ---------------------------------------------------------------- quotas

/// The session removed before a new one is stored: the first (oldest) of the
/// user's sessions, listed oldest first, once they number ten or more.
pub open spec fn evicted_session(existing: Seq<AccessTokenRecord>) -> Option<i64> {
    if existing.len() >= MAX_SESSIONS_PER_USER {
        Some(existing[0].id)
    } else {
        None
    }
}

/// Which session to remove before a new one is made: the first (oldest) of the
/// user's sessions, listed oldest first, once they number ten or more.
pub fn session_to_evict(existing: &Vec<AccessTokenRecord>) -> (r: Option<i64>)
    ensures
        r == evicted_session(existing@),
{
    if existing.len() >= MAX_SESSIONS_PER_USER {
        Some(existing[0].id)
    } else {
        None
    }
}

/// Whether a user who holds `count` API keys may make another one.
pub fn check_api_key_quota(count: u64) -> (r: Result<(), AppError>)
    ensures
        count < 3 ==> r is Ok,
        count >= 3 ==> (r matches Err(AppError::Forbidden(m)) && m@
            == "Maximum limit of 3 API keys reached. Please revoke an existing key first."@),
{
    if count >= MAX_API_KEYS_PER_USER as u64 {
        return Err(
            AppError::Forbidden(
                "Maximum limit of 3 API keys reached. Please revoke an existing key first.".to_owned(),
            ),
        );
    }
    Ok(())
}

// ---------------------------------------------------------------- laws

/// Every kind of token is found again under the name it is stored under and
/// under the prefix its tokens start with.
pub proof fn law_token_type_round_trip(t: TokenType)
    ensures
        token_type_named(t.name()) == Some(t),
        token_type_of_prefix(t.prefix_text()) == Some(t),
{
    reveal_strlit("session");
    reveal_strlit("api_key");
    reveal_strlit("ses_");
    reveal_strlit("fgk_");
    assert("session"@[0] != "api_key"@[0]);
    assert("ses_"@[0] != "fgk_"@[0]);
}

/// A token as `generate_token` makes it announces its own kind: its fourth
/// byte ends a character, and its first four bytes are the prefix of the kind
/// it was made for, so `token_type_of` recognises that kind.
pub proof fn law_generated_token_announces_kind(t: TokenType, token: Seq<char>)
    requires
        token.len() == 68,
        token.subrange(0, 4) == t.prefix_text(),
        forall|i: int| 4 <= i < 68 ==> ascii_alphanumeric(#[trigger] token[i]),
    ensures
        is_char_boundary(encode_utf8(token), 4),
        presented_type(encode_utf8(token)) == Ok::<TokenType, AppError>(t),
{
    reveal_strlit("ses_");
    reveal_strlit("fgk_");
    let prefix = t.prefix_text();
    assert(is_ascii_chars(prefix));
    assert forall|i: int| 0 <= i < token.len() implies '\0' <= #[trigger] token[i] <= '\u{7f}' by {
        if i < 4 {
            assert(token[i] == prefix[i]);
        }
    }
    assert(is_ascii_chars(token));
    let bytes = encode_utf8(token);
    assert(bytes.len() == 68);
    assert(bytes[4] == token[4] as u8);
    assert(!vstd::utf8::is_continuation_byte(bytes[4]));
    assert(is_char_boundary(bytes, 4));
    assert(encode_utf8(prefix).len() == 4);
    assert forall|i: int| 0 <= i < 4 implies #[trigger] encode_utf8(prefix)[i] == bytes.subrange(0, 4)[i] by {
        assert(encode_utf8(prefix)[i] == prefix[i] as u8);
        assert(bytes[i] == token[i] as u8);
        assert(token[i] == prefix[i]);
    }
    assert(encode_utf8(prefix) =~= bytes.subrange(0, 4));
    assert(decode_utf8(bytes.subrange(0, 4)) == prefix);
    law_token_type_round_trip(t);
}

/// The ids of a list of token records.
pub open spec fn record_ids(records: Seq<AccessTokenRecord>) -> Seq<i64> {
    records.map_values(|r: AccessTokenRecord| r.id)
}

/// The records of a list that do not carry the given id.
pub open spec fn without_id(records: Seq<AccessTokenRecord>, id: i64) -> Seq<AccessTokenRecord> {
    records.filter(|r: AccessTokenRecord| r.id != id)
}

/// A user's sessions, oldest first, once a new session is stored: the session
/// that `session_to_evict` names is deleted, and the new one comes last.
pub open spec fn sessions_after_new(
    existing: Seq<AccessTokenRecord>,
    new_session: AccessTokenRecord,
) -> Seq<AccessTokenRecord> {
    let kept = match evicted_session(existing) {
        Some(id) => without_id(existing, id),
        None => existing,
    };
    kept.push(new_session)
}

proof fn lemma_filter_keeps_all(s: Seq<AccessTokenRecord>, f: spec_fn(AccessTokenRecord) -> bool)
    requires
        forall|i: int| 0 <= i < s.len() ==> f(#[trigger] s[i]),
    ensures
        s.filter(f) == s,
    decreases s.len(),
{
    reveal(Seq::filter);
    if s.len() > 0 {
        lemma_filter_keeps_all(s.drop_last(), f);
        assert(f(s[s.len() - 1]));
        assert(s.drop_last().push(s.last()) =~= s);
    }
}

/// A user never holds more than ten sessions: with at most ten stored, each
/// with its own id, storing a new one leaves `min(n + 1, 10)` of them, the new
/// one last; when ten were stored, the oldest is the one that goes and the
/// others stay in order.
pub proof fn law_sessions_stay_bounded(existing: Seq<AccessTokenRecord>, new_session: AccessTokenRecord)
    requires
        existing.len() <= MAX_SESSIONS_PER_USER,
        record_ids(existing).no_duplicates(),
    ensures
        sessions_after_new(existing, new_session).len() == if existing.len() < 10 {
            existing.len() + 1
        } else {
            10
        },
        sessions_after_new(existing, new_session).last() == new_session,
        existing.len() == 10 ==> sessions_after_new(existing, new_session) == existing.drop_first().push(
            new_session,
        ),
        existing.len() < 10 ==> sessions_after_new(existing, new_session) == existing.push(new_session),
{
    if existing.len() == 10 {
        let id = existing[0].id;
        let rest = existing.drop_first();
        let f = |r: AccessTokenRecord| r.id != id;
        assert forall|i: int| 0 <= i < rest.len() implies f(#[trigger] rest[i]) by {
            assert(record_ids(existing)[0] == id);
            assert(record_ids(existing)[i + 1] == rest[i].id);
        }
        existing.lemma_filter_eq_filter_alt(f);
        lemma_filter_keeps_all(rest, f);
        assert(without_id(existing, id) =~= rest);
    }
}

// ---------------------------------------------------------------- sessions

/// What opening a session stores and removes: the token handed to the user,
/// the hash stored in its place, the session to delete first, and when the
/// new session expires.
#[derive(Debug)]
pub struct SessionPlan {
    pub token: String,
    pub token_hash: String,
    pub evict: Option<i64>,
    pub expires_at: UtcTime,
}

/// Plans a new session for a user whose sessions are `existing`, oldest first,
/// at `now`: a fresh session token, a hash that the token verifies against,
/// the oldest session to delete once ten are held, and an expiry thirty days
/// after `now`.
pub fn plan_session(existing: &Vec<AccessTokenRecord>, now: UtcTime) -> (r: SessionPlan)
    requires
        now.secs + THIRTY_DAYS_SECS <= MAX_UTC_SECS,
    ensures
        r.token@.len() == 68,
        r.token@.subrange(0, 4) == TokenType::Session.prefix_text(),
        forall|i: int| 4 <= i < 68 ==> ascii_alphanumeric(#[trigger] r.token@[i]),
        verify_outcome(encode_utf8(r.token@), r.token_hash@) == Ok::<bool, TokenError>(true),
        r.evict == evicted_session(existing@),
        r.expires_at == (UtcTime { secs: (now.secs + THIRTY_DAYS_SECS) as i64, nanos: now.nanos }),
{
    let token: String = generate_token(&TokenType::Session);
    proof {
        reveal_strlit("ses_");
        assert forall|i: int| 0 <= i < token@.len() implies '\0' <= #[trigger] token@[i] <= '\u{7f}' by {
            if i < 4 {
                assert(token@[i] == token@.subrange(0, 4)[i]);
            }
        }
        assert(is_ascii_chars(token@));
        assert(encode_utf8(token@).len() == 68);
    }
    let token_hash: String = match hash_token(token.as_str()) {
        Ok(h) => h,
        Err(_) => {
            assert(false);
            String::new()
        },
    };
    let evict: Option<i64> = session_to_evict(existing);
    SessionPlan { token, token_hash, evict, expires_at: now.plus_thirty_days() }
}

/// What opening a session does to a user's stored sessions, told by the plan
/// alone: with at most ten held, each with its own id, the planned deletion
/// and the new record leave `min(n + 1, 10)` sessions, the new one last, the
/// oldest gone when ten were held; and the token handed out verifies against
/// the hash that the new record stores.
pub proof fn law_session_plan(
    existing: Seq<AccessTokenRecord>,
    plan: SessionPlan,
    new_session: AccessTokenRecord,
)
    requires
        existing.len() <= MAX_SESSIONS_PER_USER,
        record_ids(existing).no_duplicates(),
        plan.evict == evicted_session(existing),
        verify_outcome(encode_utf8(plan.token@), plan.token_hash@) == Ok::<bool, TokenError>(true),
        new_session.token@ == plan.token_hash@,
    ensures
        sessions_after_new(existing, new_session).len() == if existing.len() < 10 {
            existing.len() + 1
        } else {
            10
        },
        sessions_after_new(existing, new_session).last() == new_session,
        existing.len() == 10 ==> plan.evict == Some(existing[0].id)
            && sessions_after_new(existing, new_session) == existing.drop_first().push(new_session),
        verify_outcome(encode_utf8(plan.token@), new_session.token@) == Ok::<bool, TokenError>(true),
{
    law_sessions_stay_bounded(existing, new_session);
}

/// For a token that matches a stored record of a known kind, the answer is
/// `TokenExpired` exactly when the record's expiry is strictly before `now` in
/// time (an earlier second, or the same second and fewer nanoseconds);
/// otherwise it is the record's owner and kind. In particular a record that
/// expires in a later second than `now`, or never, is accepted.
pub proof fn law_expiry_is_chronological(
    token: Seq<u8>,
    records: Seq<AccessTokenRecord>,
    now: UtcTime,
    i: int,
    t: TokenType,
)
    requires
        first_match(token, record_hashes(records)) == Ok::<Option<int>, TokenError>(Some(i)),
        0 <= i < records.len(),
        token_type_named(records[i].token_type@) == Some(t),
    ensures
        ({
            let rec = records[i];
            let expired = match rec.expires_at {
                Some(e) => e.secs < now.secs || (e.secs == now.secs && e.nanos < now.nanos),
                None => false,
            };
            &&& expired ==> record_outcome(token, records, now) == Err::<(User, TokenType), AppError>(
                AppError::Auth(AuthError::TokenExpired),
            )
            &&& !expired ==> record_outcome(token, records, now) == Ok::<(User, TokenType), AppError>(
                (User { id: rec.user_id }, t),
            )
            &&& (rec.expires_at matches Some(e) && e.secs > now.secs) ==> record_outcome(
                token,
                records,
                now,
            ) == Ok::<(User, TokenType), AppError>((User { id: rec.user_id }, t))
        }),
{
}

} // verus!
