//! A short-lived cache of recognised credentials, keyed by token hash.
//!
//! Time is a reading of a monotonic clock in nanoseconds, handed in by the
//! caller.

use vstd::prelude::*;

use dashmap::DashMap;

use crate::ratelimit::{elapsed, lookup};
use crate::model::User;
use crate::token::TokenType;

verus! {

/// The largest time-to-live, in seconds, that a cache accepts.
pub const MAX_TTL_SECONDS: i64 = 9_223_372_036_854_775;

/// A credential recognised at `cached_at`.
#[derive(Debug, Clone, Copy, PartialEq, Eq, Structural)]
pub struct CachedAuthUser {
    pub id: i64,
    pub token_type: TokenType,
    pub cached_at: u64,
}

impl CachedAuthUser {
    /// More than `ttl_seconds` have passed since the credential was recognised.
    pub open spec fn expired(self, ttl_seconds: int, now: u64) -> bool {
        elapsed(now, self.cached_at) > ttl_seconds * 1_000_000_000
    }

    fn is_expired(&self, ttl_seconds: i64, now: u64) -> (r: bool)
        requires
            -MAX_TTL_SECONDS <= ttl_seconds <= MAX_TTL_SECONDS,
        ensures
            r == self.expired(ttl_seconds as int, now),
    {
        let age: i128 = if now >= self.cached_at {
            (now - self.cached_at) as i128
        } else {
            0
        };
        age > (ttl_seconds as i128) * 1_000_000_000
    }
}

/// Which cached credentials a sweep keeps.
#[derive(Debug, Clone, Copy)]
pub enum CacheSweep {
    /// Those of every user but this one.
    OtherUsers(i64),
    /// Those still fresh at `now` under a time-to-live of `ttl_seconds`.
    FreshAt { ttl_seconds: i64, now: u64 },
}

/// A sweep whose time-to-live can be held as a duration in milliseconds.
pub open spec fn sweep_allowed(sweep: CacheSweep) -> bool {
    match sweep {
        CacheSweep::OtherUsers(_) => true,
        CacheSweep::FreshAt { ttl_seconds, .. } => -MAX_TTL_SECONDS <= ttl_seconds
            <= MAX_TTL_SECONDS,
    }
}

/// Whether a sweep keeps a cached credential.
pub open spec fn sweep_keeps(sweep: CacheSweep, entry: CachedAuthUser) -> bool {
    match sweep {
        CacheSweep::OtherUsers(id) => entry.id != id,
        CacheSweep::FreshAt { ttl_seconds, now } => !entry.expired(ttl_seconds as int, now),
    }
}

/// What a sweep leaves of the cached credentials.
pub open spec fn swept(m: Map<Seq<char>, CachedAuthUser>, sweep: CacheSweep) -> Map<
    Seq<char>,
    CachedAuthUser,
> {
    m.restrict(Set::new(|k: Seq<char>| m.dom().contains(k) && sweep_keeps(sweep, m[k])))
}

fn keeps(sweep: &CacheSweep, entry: &CachedAuthUser) -> (r: bool)
    requires
        sweep_allowed(*sweep),
    ensures
        r == sweep_keeps(*sweep, *entry),
{
    match sweep {
        CacheSweep::OtherUsers(id) => entry.id != *id,
        CacheSweep::FreshAt { ttl_seconds, now } => !entry.is_expired(*ttl_seconds, *now),
    }
}

/// What the map holds under each token hash.
pub uninterp spec fn cached_entries(m: DashMap<String, CachedAuthUser>) -> Map<
    Seq<char>,
    CachedAuthUser,
>;

/// `DashMap::new` of dashmap: an empty map.
#[verifier::external_body]
fn cache_map_new() -> (map: DashMap<String, CachedAuthUser>)
    ensures
        cached_entries(map).dom().is_empty(),
{
    DashMap::new()
}

/// `DashMap::get` of dashmap: a copy of the entry stored under `key`, if any.
#[verifier::external_body]
fn cache_map_get(map: &DashMap<String, CachedAuthUser>, key: &str) -> (r: Option<CachedAuthUser>)
    ensures
        r == lookup(cached_entries(*map), key@),
{
    map.get(key).map(|e| *e.value())
}

/// `DashMap::insert` of dashmap: stores `value` under `key`, replacing what was there.
#[verifier::external_body]
fn cache_map_insert(map: &mut DashMap<String, CachedAuthUser>, key: String, value: CachedAuthUser)
    ensures
        cached_entries(*final(map)) == cached_entries(*old(map)).insert(key@, value),
{
    map.insert(key, value);
}

/// `DashMap::remove` of dashmap: removes what is stored under `key`.
#[verifier::external_body]
fn cache_map_remove(map: &mut DashMap<String, CachedAuthUser>, key: &str)
    ensures
        cached_entries(*final(map)) == cached_entries(*old(map)).remove(key@),
{
    map.remove(key);
}

/// `DashMap::retain` of dashmap, with a predicate that keeps what the sweep
/// keeps: every other entry is removed.
#[verifier::external_body]
fn cache_map_retain(map: &mut DashMap<String, CachedAuthUser>, sweep: CacheSweep)
    requires
        sweep_allowed(sweep),
    ensures
        cached_entries(*final(map)) == swept(cached_entries(*old(map)), sweep),
{
    map.retain(|_, e| keeps(&sweep, e));
}

/// The abstract state of the cache.
pub struct AuthCacheView {
    pub entries: Map<Seq<char>, CachedAuthUser>,
    pub ttl_seconds: int,
}

/// What a lookup of `key` at `now` gives: the cached credential while it is fresh.
pub open spec fn cache_hit(v: AuthCacheView, key: Seq<char>, now: u64) -> Option<CachedAuthUser> {
    match lookup(v.entries, key) {
        Some(u) => if u.expired(v.ttl_seconds, now) {
            None
        } else {
            Some(u)
        },
        None => None,
    }
}

/// Recognised credentials, kept for a fixed time-to-live.
pub struct AuthCache {
    cache: DashMap<String, CachedAuthUser>,
    ttl_seconds: i64,
}

impl View for AuthCache {
    type V = AuthCacheView;

    closed spec fn view(&self) -> AuthCacheView {
        AuthCacheView { entries: cached_entries(self.cache), ttl_seconds: self.ttl_seconds as int }
    }
}

impl AuthCache {
    /// The cache is well formed: its time-to-live is one that can be held as a
    /// duration in milliseconds.
    pub closed spec fn wf(&self) -> bool {
        -MAX_TTL_SECONDS <= self.ttl_seconds <= MAX_TTL_SECONDS
    }

    /// An empty cache whose entries live `ttl_seconds` seconds.
    pub fn new(ttl_seconds: i64) -> (r: Self)
        requires
            -MAX_TTL_SECONDS <= ttl_seconds <= MAX_TTL_SECONDS,
        ensures
            r.wf(),
            r@.entries.dom().is_empty(),
            r@.ttl_seconds == ttl_seconds,
    {
        AuthCache { cache: cache_map_new(), ttl_seconds }
    }

    /// The credential cached under `token_hash`, if it is still fresh at `now`.
    pub fn get(&self, token_hash: &str, now: u64) -> (r: Option<CachedAuthUser>)
        requires
            self.wf(),
        ensures
            r == cache_hit(self@, token_hash@, now),
    {
        match cache_map_get(&self.cache, token_hash) {
            Some(cached) => {
                if !cached.is_expired(self.ttl_seconds, now) {
                    Some(cached)
                } else {
                    None
                }
            },
            None => None,
        }
    }

    /// Caches `user` under `token_hash`.
    pub fn set(&mut self, token_hash: String, user: CachedAuthUser)
        ensures
            final(self).wf() == old(self).wf(),
            final(self)@.entries == old(self)@.entries.insert(token_hash@, user),
            final(self)@.ttl_seconds == old(self)@.ttl_seconds,
    {
        cache_map_insert(&mut self.cache, token_hash, user);
    }

    /// Forgets what is cached under `token_hash`.
    pub fn invalidate(&mut self, token_hash: &str)
        ensures
            final(self).wf() == old(self).wf(),
            final(self)@.entries == old(self)@.entries.remove(token_hash@),
            final(self)@.ttl_seconds == old(self)@.ttl_seconds,
    {
        cache_map_remove(&mut self.cache, token_hash);
    }

    /// Forgets every credential of the user.
    pub fn invalidate_user(&mut self, user_id: i64)
        ensures
            final(self).wf() == old(self).wf(),
            final(self)@.entries == swept(old(self)@.entries, CacheSweep::OtherUsers(user_id)),
            final(self)@.ttl_seconds == old(self)@.ttl_seconds,
    {
        cache_map_retain(&mut self.cache, CacheSweep::OtherUsers(user_id));
    }

    /// Forgets every credential that is no longer fresh at `now`.
    pub fn cleanup(&mut self, now: u64)
        requires
            old(self).wf(),
        ensures
            final(self).wf(),
            final(self)@.entries == swept(
                old(self)@.entries,
                CacheSweep::FreshAt { ttl_seconds: old(self)@.ttl_seconds as i64, now },
            ),
            final(self)@.ttl_seconds == old(self)@.ttl_seconds,
    {
        let sweep: CacheSweep = CacheSweep::FreshAt { ttl_seconds: self.ttl_seconds, now };
        cache_map_retain(&mut self.cache, sweep);
    }
}

/// Where the owner of a presented credential is taken from.
#[derive(Debug, Clone, Copy, PartialEq, Eq, Structural)]
pub enum CredentialSource {
    /// The cache still knows the credential: its user and kind.
    Cached(User, TokenType),
    /// The cache does not: the token store must be asked, and its answer cached.
    FromStore,
}

/// What to do after looking a credential up in the cache: use a fresh hit,
/// and otherwise ask the store.
pub fn after_cache_lookup(hit: Option<CachedAuthUser>) -> (r: CredentialSource)
    ensures
        match hit {
            Some(u) => r == CredentialSource::Cached(User { id: u.id }, u.token_type),
            None => r == CredentialSource::FromStore,
        },
{
    match hit {
        Some(u) => CredentialSource::Cached(User { id: u.id }, u.token_type),
        None => CredentialSource::FromStore,
    }
}

/// What is cached of a credential that the store recognised at `now`.
pub fn cache_entry(user: User, token_type: TokenType, now: u64) -> (r: CachedAuthUser)
    ensures
        r == (CachedAuthUser { id: user.id, token_type, cached_at: now }),
{
    CachedAuthUser { id: user.id, token_type, cached_at: now }
}

/// What is cached is what a lookup gives back while it is fresh.
pub proof fn law_cache_read_after_write(
    v: AuthCacheView,
    key: Seq<char>,
    user: CachedAuthUser,
    now: u64,
)
    ensures
        cache_hit(AuthCacheView { entries: v.entries.insert(key, user), ..v }, key, now) == (if user.expired(
            v.ttl_seconds,
            now,
        ) {
            None
        } else {
            Some(user)
        }),
{
}

/// A lookup after an invalidation finds nothing.
pub proof fn law_cache_invalidated(v: AuthCacheView, key: Seq<char>, now: u64)
    ensures
        cache_hit(AuthCacheView { entries: v.entries.remove(key), ..v }, key, now) is None,
{
}

/// After a user's credentials are forgotten, no lookup yields that user.
pub proof fn law_cache_user_forgotten(v: AuthCacheView, user_id: i64, key: Seq<char>, now: u64)
    ensures
        !(cache_hit(
            AuthCacheView { entries: swept(v.entries, CacheSweep::OtherUsers(user_id)), ..v },
            key,
            now,
        ) matches Some(u) && u.id == user_id),
{
}

/// A sweep at `now` changes nothing that a lookup at `now` can see.
pub proof fn law_cache_cleanup_unobservable(v: AuthCacheView, key: Seq<char>, now: u64)
    requires
        -MAX_TTL_SECONDS <= v.ttl_seconds <= MAX_TTL_SECONDS,
    ensures
        cache_hit(
            AuthCacheView {
                entries: swept(
                    v.entries,
                    CacheSweep::FreshAt { ttl_seconds: v.ttl_seconds as i64, now },
                ),
                ..v
            },
            key,
            now,
        ) == cache_hit(v, key, now),
{
}

} // verus!
