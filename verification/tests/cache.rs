use register_spf_api::auth::{AuthCache, CachedAuthUser, CredentialSource, after_cache_lookup, cache_entry};
use register_spf_api::model::User;
use register_spf_api::token::TokenType;

const SEC: u64 = 1_000_000_000;

fn user(id: i64, at: u64) -> CachedAuthUser {
    CachedAuthUser { id, token_type: TokenType::Session, cached_at: at }
}

#[test]
fn read_after_write_until_expiry() {
    let mut cache = AuthCache::new(300);
    cache.set("h1".to_string(), user(1, 10 * SEC));
    assert_eq!(cache.get("h1", 10 * SEC), Some(user(1, 10 * SEC)));
    assert_eq!(cache.get("h1", 310 * SEC), Some(user(1, 10 * SEC)));
    assert_eq!(cache.get("h1", 310 * SEC + 1), None);
    assert_eq!(cache.get("h2", 10 * SEC), None);
}

#[test]
fn invalidation() {
    let mut cache = AuthCache::new(300);
    cache.set("a".to_string(), user(1, 0));
    cache.set("b".to_string(), user(1, 0));
    cache.set("c".to_string(), user(2, 0));
    cache.invalidate("a");
    assert_eq!(cache.get("a", 0), None);
    cache.invalidate_user(1);
    assert_eq!(cache.get("b", 0), None);
    assert_eq!(cache.get("c", 0), Some(user(2, 0)));
}

#[test]
fn cleanup_drops_expired_entries_only() {
    let mut cache = AuthCache::new(60);
    cache.set("old".to_string(), user(1, 0));
    cache.set("new".to_string(), user(2, 100 * SEC));
    cache.cleanup(100 * SEC);
    assert_eq!(cache.get("old", 0), None);
    assert_eq!(cache.get("new", 100 * SEC), Some(user(2, 100 * SEC)));
}

#[test]
fn cache_hit_is_used_and_a_miss_asks_the_store() {
    let mut cache = AuthCache::new(300);
    assert_eq!(after_cache_lookup(cache.get("h", 0)), CredentialSource::FromStore);
    cache.set("h".to_string(), cache_entry(User { id: 9 }, TokenType::ApiKey, 5 * SEC));
    assert_eq!(
        after_cache_lookup(cache.get("h", 6 * SEC)),
        CredentialSource::Cached(User { id: 9 }, TokenType::ApiKey)
    );
    assert_eq!(after_cache_lookup(cache.get("h", 400 * SEC)), CredentialSource::FromStore);
}
