//! Fixed-window rate limiting per client, per credential, per uploader and
//! per commenter.
//!
//! Time is a reading of a monotonic clock in nanoseconds, handed in by the
//! caller; a window starts with the first request that finds no open window.

use vstd::prelude::*;

use dashmap::DashMap;

use crate::error::AppError;
use crate::text::{contains_text, i64_to_decimal, text_contains, signed_decimal};

verus! {

broadcast use vstd::string::group_string_axioms;

#[verifier::external_type_specification]
#[verifier::external_body]
#[verifier::reject_recursive_types(K)]
#[verifier::reject_recursive_types(V)]
#[verifier::reject_recursive_types(S)]
pub struct ExDashMap<K, V, S>(DashMap<K, V, S>);

/// Length of a rate-limiting window: one minute, in nanoseconds.
pub const WINDOW_NANOS: u64 = 60_000_000_000;

/// How long an idle window is remembered: two minutes, in nanoseconds.
pub const RETENTION_NANOS: u64 = 120_000_000_000;

/// The classes of client, each with its own allowance per window.
#[derive(Debug, Clone, Copy, PartialEq, Eq, Structural)]
pub enum RateLimitTier {
    FrontendPublic,
    ApiKey,
    Authenticated,
    Anonymous,
    Comment,
    FontUpload,
}

impl RateLimitTier {
    /// Requests allowed per window.
    pub open spec fn limit(self) -> nat {
        match self {
            RateLimitTier::FrontendPublic => 40,
            RateLimitTier::ApiKey => 30,
            RateLimitTier::Authenticated => 40,
            RateLimitTier::Anonymous => 10,
            RateLimitTier::Comment => 10,
            RateLimitTier::FontUpload => 1,
        }
    }

    /// Requests allowed per window.
    pub fn max_requests(&self) -> (r: usize)
        ensures
            r as nat == self.limit(),
    {
        match self {
            RateLimitTier::FrontendPublic => 40,
            RateLimitTier::ApiKey => 30,
            RateLimitTier::Authenticated => 40,
            RateLimitTier::Anonymous => 10,
            RateLimitTier::Comment => 10,
            RateLimitTier::FontUpload => 1,
        }
    }

    /// Length of the window, in nanoseconds: one minute for every tier.
    pub fn window_duration(&self) -> (r: u64)
        ensures
            r == WINDOW_NANOS,
    {
        WINDOW_NANOS
    }
}

/// A user whose credential was recognised, and the tier of that credential.
#[derive(Debug, Clone, Copy, PartialEq, Eq, Structural)]
pub struct AuthUser {
    pub id: i64,
    pub rate_limit_tier: RateLimitTier,
}

impl AuthUser {
    /// The user that the rate-limiting step attached to the request, or the
    /// refusal of a route that needs one.
    pub fn from_request_extension(found: Option<AuthUser>) -> (r: Result<AuthUser, AppError>)
        ensures
            match found {
                Some(u) => r == Ok::<AuthUser, AppError>(u),
                None => r matches Err(AppError::Unauthorized(m)) && m@ == "Authentication required"@,
            },
    {
        match found {
            Some(user) => Ok(user),
            None => Err(AppError::Unauthorized("Authentication required".to_owned())),
        }
    }
}

/// Requests counted in the window that started at `window_start`.
#[derive(Debug, Clone, Copy, PartialEq, Eq, Structural)]
pub struct RateLimitEntry {
    pub count: usize,
    pub window_start: u64,
}

/// What the map holds under each key.
pub uninterp spec fn rate_entries(m: DashMap<String, RateLimitEntry>) -> Map<
    Seq<char>,
    RateLimitEntry,
>;

/// `DashMap::new` of dashmap: an empty map.
#[verifier::external_body]
fn rate_map_new() -> (map: DashMap<String, RateLimitEntry>)
    ensures
        rate_entries(map).dom().is_empty(),
{
    DashMap::new()
}

/// `DashMap::get` of dashmap: a copy of the entry stored under `key`, if any.
#[verifier::external_body]
fn rate_map_get(map: &DashMap<String, RateLimitEntry>, key: &str) -> (r: Option<RateLimitEntry>)
    ensures
        r == lookup(rate_entries(*map), key@),
{
    map.get(key).map(|e| *e.value())
}

/// `DashMap::insert` of dashmap: stores `value` under `key`, replacing what was there.
#[verifier::external_body]
fn rate_map_insert(map: &mut DashMap<String, RateLimitEntry>, key: String, value: RateLimitEntry)
    ensures
        rate_entries(*final(map)) == rate_entries(*old(map)).insert(key@, value),
{
    map.insert(key, value);
}

/// `DashMap::retain` of dashmap, with a predicate that keeps the entries whose
/// window started after `cutoff`: every other entry is removed.
#[verifier::external_body]
fn rate_map_retain_recent(map: &mut DashMap<String, RateLimitEntry>, cutoff: i128)
    ensures
        rate_entries(*final(map)) == recent_entries(rate_entries(*old(map)), cutoff as int),
{
    map.retain(|_, e| started_after(e, cutoff));
}

/// What a map holds under a key.
pub open spec fn lookup<V>(m: Map<Seq<char>, V>, k: Seq<char>) -> Option<V> {
    if m.dom().contains(k) {
        Some(m[k])
    } else {
        None
    }
}

/// The entries of `m` whose window started after `cutoff`.
pub open spec fn recent_entries(m: Map<Seq<char>, RateLimitEntry>, cutoff: int) -> Map<
    Seq<char>,
    RateLimitEntry,
> {
    m.restrict(Set::new(|k: Seq<char>| m.dom().contains(k) && m[k].window_start > cutoff))
}

fn started_after(e: &RateLimitEntry, cutoff: i128) -> (r: bool)
    ensures
        r == (e.window_start > cutoff),
{
    (e.window_start as i128) > cutoff
}

/// Time from `since` to `now`, or zero if `since` is later.
pub open spec fn elapsed(now: u64, since: u64) -> int {
    if now >= since {
        now - since
    } else {
        0
    }
}

/// The entry in force at `now`: a fresh window if there was none or if the
/// last one has run out.
pub open spec fn refreshed(e: Option<RateLimitEntry>, now: u64) -> RateLimitEntry {
    match e {
        None => RateLimitEntry { count: 0, window_start: now },
        Some(x) => if elapsed(now, x.window_start) >= WINDOW_NANOS {
            RateLimitEntry { count: 0, window_start: now }
        } else {
            x
        },
    }
}

/// Whether a request at `now` is allowed.
pub open spec fn admits(e: Option<RateLimitEntry>, tier: RateLimitTier, now: u64) -> bool {
    refreshed(e, now).count < tier.limit()
}

/// The entry stored after a request at `now`: the request is counted when it
/// is allowed.
pub open spec fn after_check(
    e: Option<RateLimitEntry>,
    tier: RateLimitTier,
    now: u64,
) -> RateLimitEntry {
    let r = refreshed(e, now);
    if r.count < tier.limit() {
        RateLimitEntry { count: (r.count + 1) as usize, window_start: r.window_start }
    } else {
        r
    }
}

/// A map after a request under `key`: only that key changes.
pub open spec fn checked(
    m: Map<Seq<char>, RateLimitEntry>,
    key: Seq<char>,
    tier: RateLimitTier,
    now: u64,
) -> Map<Seq<char>, RateLimitEntry> {
    m.insert(key, after_check(lookup(m, key), tier, now))
}

/// The abstract state of a rate limiter.
pub struct RateLimiterView {
    pub ip: Map<Seq<char>, RateLimitEntry>,
    pub token: Map<Seq<char>, RateLimitEntry>,
    pub font_upload: Map<Seq<char>, RateLimitEntry>,
    pub comment: Map<Seq<char>, RateLimitEntry>,
    pub trusted_domains: Seq<Seq<char>>,
}

/// Counters per client address, per credential, per uploader and per
/// commenter, and the list of trusted origins.
pub struct RateLimiter {
    ip_limits: DashMap<String, RateLimitEntry>,
    token_limits: DashMap<String, RateLimitEntry>,
    font_upload_limits: DashMap<String, RateLimitEntry>,
    comment_limits: DashMap<String, RateLimitEntry>,
    trusted_domains: Vec<String>,
}

impl View for RateLimiter {
    type V = RateLimiterView;

    closed spec fn view(&self) -> RateLimiterView {
        RateLimiterView {
            ip: rate_entries(self.ip_limits),
            token: rate_entries(self.token_limits),
            font_upload: rate_entries(self.font_upload_limits),
            comment: rate_entries(self.comment_limits),
            trusted_domains: self.trusted_domains@.map_values(|s: String| s@),
        }
    }
}

/// The key under which an uploader's own uploads are counted.
pub open spec fn user_upload_key(user_id: int) -> Seq<char> {
    "user:"@ + signed_decimal(user_id)
}

fn check_limit(
    limits: &mut DashMap<String, RateLimitEntry>,
    key: &str,
    tier: RateLimitTier,
    now: u64,
) -> (r: bool)
    ensures
        r == admits(lookup(rate_entries(*old(limits)), key@), tier, now),
        rate_entries(*final(limits)) == checked(rate_entries(*old(limits)), key@, tier, now),
{
    let window: u64 = tier.window_duration();
    let current: Option<RateLimitEntry> = rate_map_get(limits, key);
    let mut entry: RateLimitEntry = match current {
        Some(e) => e,
        None => RateLimitEntry { count: 0, window_start: now },
    };
    if now >= entry.window_start && now - entry.window_start >= window {
        entry = RateLimitEntry { count: 0, window_start: now };
    }
    if entry.count >= tier.max_requests() {
        rate_map_insert(limits, key.to_owned(), entry);
        return false;
    }
    entry.count = entry.count + 1;
    rate_map_insert(limits, key.to_owned(), entry);
    true
}

impl RateLimiter {
    /// A limiter with no counters yet and the given trusted origins.
    pub fn new(trusted_domains: Vec<String>) -> (r: Self)
        ensures
            r@.ip.dom().is_empty(),
            r@.token.dom().is_empty(),
            r@.font_upload.dom().is_empty(),
            r@.comment.dom().is_empty(),
            r@.trusted_domains == trusted_domains@.map_values(|s: String| s@),
    {
        RateLimiter {
            ip_limits: rate_map_new(),
            token_limits: rate_map_new(),
            font_upload_limits: rate_map_new(),
            comment_limits: rate_map_new(),
            trusted_domains,
        }
    }

    /// Whether some trusted domain occurs in `origin`.
    pub fn is_trusted_domain(&self, origin: &str) -> (r: bool)
        ensures
            r == exists|i: int|
                0 <= i < self@.trusted_domains.len() && contains_text(
                    origin@,
                    #[trigger] self@.trusted_domains[i],
                ),
    {
        let n: usize = self.trusted_domains.len();
        let mut i: usize = 0;
        while i < n
            invariant
                n == self@.trusted_domains.len(),
                self@.trusted_domains == self.trusted_domains@.map_values(|s: String| s@),
                i <= n,
                forall|k: int|
                    0 <= k < i ==> !contains_text(origin@, #[trigger] self@.trusted_domains[k]),
            decreases n - i,
        {
            assert(self@.trusted_domains[i as int] == self.trusted_domains@[i as int]@);
            if text_contains(origin, self.trusted_domains[i].as_str()) {
                return true;
            }
            i = i + 1;
        }
        false
    }

    /// Counts a request from a client address; whether it is allowed.
    pub fn check_ip(&mut self, ip: &str, tier: RateLimitTier, now: u64) -> (r: bool)
        ensures
            r == admits(lookup(old(self)@.ip, ip@), tier, now),
            final(self)@.ip == checked(old(self)@.ip, ip@, tier, now),
            final(self)@.token == old(self)@.token,
            final(self)@.font_upload == old(self)@.font_upload,
            final(self)@.comment == old(self)@.comment,
            final(self)@.trusted_domains == old(self)@.trusted_domains,
    {
        check_limit(&mut self.ip_limits, ip, tier, now)
    }

    /// Counts a request made with a credential; whether it is allowed.
    pub fn check_token(&mut self, token: &str, tier: RateLimitTier, now: u64) -> (r: bool)
        ensures
            r == admits(lookup(old(self)@.token, token@), tier, now),
            final(self)@.token == checked(old(self)@.token, token@, tier, now),
            final(self)@.ip == old(self)@.ip,
            final(self)@.font_upload == old(self)@.font_upload,
            final(self)@.comment == old(self)@.comment,
            final(self)@.trusted_domains == old(self)@.trusted_domains,
    {
        check_limit(&mut self.token_limits, token, tier, now)
    }

    /// Counts a font upload under `key`; whether it is allowed.
    pub fn check_font_upload(&mut self, key: &str, now: u64) -> (r: bool)
        ensures
            r == admits(lookup(old(self)@.font_upload, key@), RateLimitTier::FontUpload, now),
            final(self)@.font_upload == checked(
                old(self)@.font_upload,
                key@,
                RateLimitTier::FontUpload,
                now,
            ),
            final(self)@.ip == old(self)@.ip,
            final(self)@.token == old(self)@.token,
            final(self)@.comment == old(self)@.comment,
            final(self)@.trusted_domains == old(self)@.trusted_domains,
    {
        check_limit(&mut self.font_upload_limits, key, RateLimitTier::FontUpload, now)
    }

    /// Counts a comment by a user; whether it is allowed.
    pub fn check_comment_limit(&mut self, user_id: i64, now: u64) -> (r: bool)
        ensures
            r == admits(
                lookup(old(self)@.comment, signed_decimal(user_id as int)),
                RateLimitTier::Comment,
                now,
            ),
            final(self)@.comment == checked(
                old(self)@.comment,
                signed_decimal(user_id as int),
                RateLimitTier::Comment,
                now,
            ),
            final(self)@.ip == old(self)@.ip,
            final(self)@.token == old(self)@.token,
            final(self)@.font_upload == old(self)@.font_upload,
            final(self)@.trusted_domains == old(self)@.trusted_domains,
    {
        let key: String = i64_to_decimal(user_id);
        check_limit(&mut self.comment_limits, key.as_str(), RateLimitTier::Comment, now)
    }

    /// Forgets every window that started two minutes or more before `now`.
    pub fn cleanup(&mut self, now: u64)
        ensures
            final(self)@.ip == recent_entries(old(self)@.ip, now - RETENTION_NANOS),
            final(self)@.token == recent_entries(old(self)@.token, now - RETENTION_NANOS),
            final(self)@.font_upload == recent_entries(
                old(self)@.font_upload,
                now - RETENTION_NANOS,
            ),
            final(self)@.comment == recent_entries(old(self)@.comment, now - RETENTION_NANOS),
            final(self)@.trusted_domains == old(self)@.trusted_domains,
    {
        let cutoff: i128 = (now as i128) - (RETENTION_NANOS as i128);
        rate_map_retain_recent(&mut self.ip_limits, cutoff);
        rate_map_retain_recent(&mut self.token_limits, cutoff);
        rate_map_retain_recent(&mut self.font_upload_limits, cutoff);
        rate_map_retain_recent(&mut self.comment_limits, cutoff);
    }
}

/// Requests allowed among a series made at the given times, one after the
/// other under one key and tier, starting from the stored entry `e`.
pub open spec fn admitted_count(e: Option<RateLimitEntry>, tier: RateLimitTier, times: Seq<u64>) -> nat
    decreases times.len(),
{
    if times.len() == 0 {
        0
    } else {
        (if admits(e, tier, times[0]) { 1nat } else { 0nat }) + admitted_count(
            Some(after_check(e, tier, times[0])),
            tier,
            times.drop_first(),
        )
    }
}

/// The smaller of two numbers.
pub open spec fn min_nat(a: nat, b: nat) -> nat {
    if a <= b {
        a
    } else {
        b
    }
}

/// Requests still allowed in a window that has counted `count`.
pub open spec fn headroom(count: nat, limit: nat) -> nat {
    if count < limit {
        (limit - count) as nat
    } else {
        0
    }
}

proof fn lemma_open_window(count: usize, start: u64, tier: RateLimitTier, times: Seq<u64>)
    requires
        count <= 40,
        forall|i: int| 0 <= i < times.len() ==> start <= #[trigger] times[i] < start + WINDOW_NANOS,
    ensures
        admitted_count(Some(RateLimitEntry { count, window_start: start }), tier, times)
            == min_nat(times.len(), headroom(count as nat, tier.limit())),
    decreases times.len(),
{
    if times.len() > 0 {
        let e = RateLimitEntry { count, window_start: start };
        assert(start <= times[0] < start + WINDOW_NANOS);
        assert(refreshed(Some(e), times[0]) == e);
        let rest = times.drop_first();
        assert forall|i: int| 0 <= i < rest.len() implies start <= #[trigger] rest[i] < start
            + WINDOW_NANOS by {
            assert(rest[i] == times[i + 1]);
        }
        if count < tier.limit() {
            lemma_open_window((count + 1) as usize, start, tier, rest);
        } else {
            lemma_open_window(count, start, tier, rest);
        }
    }
}

/// Within one window, a key that has no open window is allowed exactly as many
/// requests as its tier permits per minute: of `n` requests made less than a
/// minute after the first, the first `min(n, limit)` pass and the rest are refused.
pub proof fn law_allowance_per_window(tier: RateLimitTier, times: Seq<u64>)
    requires
        forall|i: int| 0 <= i < times.len() ==> times[0] <= #[trigger] times[i] < times[0] + WINDOW_NANOS,
    ensures
        admitted_count(None, tier, times) == min_nat(times.len(), tier.limit()),
{
    if times.len() > 0 {
        let t0 = times[0];
        assert(refreshed(None, t0) == RateLimitEntry { count: 0, window_start: t0 });
        let rest = times.drop_first();
        assert forall|i: int| 0 <= i < rest.len() implies t0 <= #[trigger] rest[i] < t0
            + WINDOW_NANOS by {
            assert(rest[i] == times[i + 1]);
        }
        lemma_open_window(1, t0, tier, rest);
    }
}

/// Once a window has run for a minute, the next request opens a new window
/// and is allowed, whatever was counted before.
pub proof fn law_window_resets(e: RateLimitEntry, tier: RateLimitTier, now: u64)
    requires
        elapsed(now, e.window_start) >= WINDOW_NANOS,
    ensures
        admits(Some(e), tier, now),
        after_check(Some(e), tier, now) == (RateLimitEntry { count: 1, window_start: now }),
{
}

/// A window never counts more requests than its tier allows, so long as it is
/// only ever checked against that tier.
pub proof fn law_count_within_limit(e: Option<RateLimitEntry>, tier: RateLimitTier, now: u64)
    requires
        e matches Some(x) ==> x.count <= tier.limit(),
    ensures
        after_check(e, tier, now).count <= tier.limit(),
{
}

/// A request counted under one key leaves every other key as it was.
pub proof fn law_keys_independent(
    m: Map<Seq<char>, RateLimitEntry>,
    key: Seq<char>,
    other: Seq<char>,
    tier: RateLimitTier,
    now: u64,
)
    requires
        other != key,
    ensures
        lookup(checked(m, key, tier, now), other) == lookup(m, other),
{
}

/// Forgetting old windows changes no later decision: a window that a cleanup
/// at `now` removes has run out for every request at `now` or later, and such
/// a request opens a fresh window just as for a key never seen.
pub proof fn law_cleanup_unobservable(
    m: Map<Seq<char>, RateLimitEntry>,
    key: Seq<char>,
    tier: RateLimitTier,
    now: u64,
    later: u64,
)
    requires
        now <= later,
    ensures
        admits(lookup(recent_entries(m, now - RETENTION_NANOS), key), tier, later) == admits(
            lookup(m, key),
            tier,
            later,
        ),
        after_check(lookup(recent_entries(m, now - RETENTION_NANOS), key), tier, later)
            == after_check(lookup(m, key), tier, later),
{
    let kept = recent_entries(m, now - RETENTION_NANOS);
    if m.dom().contains(key) && !kept.dom().contains(key) {
        assert(m[key].window_start <= now - RETENTION_NANOS);
        assert(elapsed(later, m[key].window_start) >= WINDOW_NANOS);
    }
}

/// Whether each of a series of requests, made one after the other at the given
/// times under one key and tier, is allowed, starting from the stored entry `e`.
pub open spec fn decisions(e: Option<RateLimitEntry>, tier: RateLimitTier, times: Seq<u64>) -> Seq<bool>
    decreases times.len(),
{
    if times.len() == 0 {
        Seq::<bool>::empty()
    } else {
        seq![admits(e, tier, times[0])] + decisions(
            Some(after_check(e, tier, times[0])),
            tier,
            times.drop_first(),
        )
    }
}

proof fn lemma_open_window_decisions(count: usize, start: u64, tier: RateLimitTier, times: Seq<u64>)
    requires
        count <= 40,
        forall|i: int| 0 <= i < times.len() ==> start <= #[trigger] times[i] < start + WINDOW_NANOS,
    ensures
        decisions(Some(RateLimitEntry { count, window_start: start }), tier, times).len() == times.len(),
        forall|i: int|
            0 <= i < times.len() ==> #[trigger] decisions(
                Some(RateLimitEntry { count, window_start: start }),
                tier,
                times,
            )[i] == (count + i < tier.limit()),
    decreases times.len(),
{
    if times.len() > 0 {
        let e = RateLimitEntry { count, window_start: start };
        assert(start <= times[0] < start + WINDOW_NANOS);
        assert(refreshed(Some(e), times[0]) == e);
        let rest = times.drop_first();
        assert forall|i: int| 0 <= i < rest.len() implies start <= #[trigger] rest[i] < start
            + WINDOW_NANOS by {
            assert(rest[i] == times[i + 1]);
        }
        let next: usize = if count < tier.limit() { (count + 1) as usize } else { count };
        assert(after_check(Some(e), tier, times[0]) == RateLimitEntry { count: next, window_start: start });
        lemma_open_window_decisions(next, start, tier, rest);
        let d = decisions(Some(e), tier, times);
        let tail = decisions(Some(RateLimitEntry { count: next, window_start: start }), tier, rest);
        assert(d == seq![admits(Some(e), tier, times[0])] + tail);
        assert forall|i: int| 0 <= i < times.len() implies #[trigger] d[i] == (count + i < tier.limit()) by {
            if i > 0 {
                assert(d[i] == tail[i - 1]);
            }
        }
    }
}

/// Within one window, exactly the first requests pass: of requests made under
/// a key with no open window, less than a minute after the first, request `i`
/// (counting from zero) is allowed exactly when `i` is below the tier's limit.
pub proof fn law_first_requests_pass(tier: RateLimitTier, times: Seq<u64>)
    requires
        forall|i: int| 0 <= i < times.len() ==> times[0] <= #[trigger] times[i] < times[0] + WINDOW_NANOS,
    ensures
        decisions(None, tier, times).len() == times.len(),
        forall|i: int| 0 <= i < times.len() ==> #[trigger] decisions(None, tier, times)[i] == (i < tier.limit()),
{
    if times.len() > 0 {
        let t0 = times[0];
        assert(refreshed(None, t0) == RateLimitEntry { count: 0, window_start: t0 });
        let rest = times.drop_first();
        assert forall|i: int| 0 <= i < rest.len() implies t0 <= #[trigger] rest[i] < t0
            + WINDOW_NANOS by {
            assert(rest[i] == times[i + 1]);
        }
        lemma_open_window_decisions(1, t0, tier, rest);
        let d = decisions(None, tier, times);
        let tail = decisions(Some(RateLimitEntry { count: 1, window_start: t0 }), tier, rest);
        assert(d == seq![admits(None, tier, t0)] + tail);
        assert forall|i: int| 0 <= i < times.len() implies #[trigger] d[i] == (i < tier.limit()) by {
            if i > 0 {
                assert(d[i] == tail[i - 1]);
            }
        }
    }
}

/// A refused request changes nothing: when the window in force is full, the
/// stored entries are left exactly as they were.
pub proof fn law_refusal_changes_nothing(
    m: Map<Seq<char>, RateLimitEntry>,
    key: Seq<char>,
    tier: RateLimitTier,
    now: u64,
)
    requires
        m.dom().contains(key),
        elapsed(now, m[key].window_start) < WINDOW_NANOS,
        !admits(lookup(m, key), tier, now),
    ensures
        checked(m, key, tier, now) == m,
{
    assert(checked(m, key, tier, now) =~= m);
}

/// The answers to a series of requests under one key and tier, each counted by
/// a call of a `check_*` method on the map the previous call left: each answer
/// is `admits` of the map in force, and each call leaves `checked` of it.
pub open spec fn answers_of_calls(
    m: Map<Seq<char>, RateLimitEntry>,
    key: Seq<char>,
    tier: RateLimitTier,
    times: Seq<u64>,
) -> Seq<bool>
    decreases times.len(),
{
    if times.len() == 0 {
        Seq::<bool>::empty()
    } else {
        seq![admits(lookup(m, key), tier, times[0])] + answers_of_calls(
            checked(m, key, tier, times[0]),
            key,
            tier,
            times.drop_first(),
        )
    }
}

/// Successive calls under one key answer as `decisions` says: the answers of
/// the calls, each made on the map the one before left, are the decisions for
/// the key's stored entry, so the laws stated of `decisions` hold of the calls.
pub proof fn law_calls_follow_decisions(
    m: Map<Seq<char>, RateLimitEntry>,
    key: Seq<char>,
    tier: RateLimitTier,
    times: Seq<u64>,
)
    ensures
        answers_of_calls(m, key, tier, times) == decisions(lookup(m, key), tier, times),
    decreases times.len(),
{
    if times.len() > 0 {
        let next = checked(m, key, tier, times[0]);
        assert(lookup(next, key) == Some(after_check(lookup(m, key), tier, times[0])));
        law_calls_follow_decisions(next, key, tier, times.drop_first());
    }
}

} // verus!
