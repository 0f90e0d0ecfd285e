use register_spf_api::error::{AppError, AuthError};
use register_spf_api::model::{AccessTokenRecord, UtcTime};
use register_spf_api::ratelimit::RateLimitTier;
use register_spf_api::token::{
    TokenError, TokenType, check_api_key_quota, generate_token, hash_token, match_token_record,
    plan_session, session_to_evict, token_type_of, token_with_random, verify_token,
};

#[test]
fn token_type_names_and_prefixes() {
    assert_eq!(TokenType::Session.as_str(), "session");
    assert_eq!(TokenType::ApiKey.as_str(), "api_key");
    assert_eq!(TokenType::Session.prefix(), "ses_");
    assert_eq!(TokenType::ApiKey.prefix(), "fgk_");
    assert_eq!(TokenType::from_str("session"), Some(TokenType::Session));
    assert_eq!(TokenType::from_str("api_key"), Some(TokenType::ApiKey));
    assert_eq!(TokenType::from_str("Session"), None);
    assert_eq!(TokenType::from_prefix("ses_"), Some(TokenType::Session));
    assert_eq!(TokenType::from_prefix("fgk_"), Some(TokenType::ApiKey));
    assert_eq!(TokenType::from_prefix("xyz_"), None);
    assert_eq!(TokenType::Session.rate_limit_tier(), RateLimitTier::Authenticated);
    assert_eq!(TokenType::ApiKey.rate_limit_tier(), RateLimitTier::ApiKey);
}

#[test]
fn default_expiration_is_thirty_days_for_sessions() {
    let now = UtcTime { secs: 1_700_000_000, nanos: 5 };
    assert_eq!(TokenType::Session.default_expiration(now), Some(UtcTime { secs: 1_702_592_000, nanos: 5 }));
    assert_eq!(TokenType::ApiKey.default_expiration(now), None);
}

#[test]
fn generated_tokens_have_prefix_and_random_tail() {
    let t = generate_token(&TokenType::ApiKey);
    assert_eq!(t.len(), 68);
    assert!(t.starts_with("fgk_"));
    assert!(t[4..].chars().all(|c| c.is_ascii_alphanumeric()));
    let u = generate_token(&TokenType::ApiKey);
    assert_ne!(t, u);
}

#[test]
fn hashed_token_verifies_and_others_do_not() {
    let h = hash_token("ses_secret").unwrap();
    assert!(h.starts_with("$argon2"));
    assert_eq!(verify_token("ses_secret", &h), Ok(true));
    assert_eq!(verify_token("ses_other", &h), Ok(false));
    assert_eq!(verify_token("ses_secret", "not a hash"), Err(TokenError::InvalidHash));
    // A fresh salt each time: two hashes of one token differ.
    assert_ne!(h, hash_token("ses_secret").unwrap());
}

#[test]
fn presented_token_prefix() {
    assert_eq!(token_type_of("ses_abc").unwrap(), TokenType::Session);
    assert_eq!(token_type_of("fgk_abc").unwrap(), TokenType::ApiKey);
    assert!(matches!(token_type_of("ses"), Err(AppError::Auth(AuthError::InvalidToken))));
    assert!(matches!(token_type_of("abcd_x"), Err(AppError::Auth(AuthError::InvalidToken))));
}

fn record(id: i64, user_id: i64, hash: String, token_type: &str, expires_at: Option<UtcTime>) -> AccessTokenRecord {
    AccessTokenRecord {
        id,
        user_id,
        token: hash,
        token_type: token_type.to_string(),
        name: None,
        expires_at,
        last_used_at: None,
        created_at: UtcTime { secs: 0, nanos: 0 },
    }
}

#[test]
fn token_records_are_matched_in_order() {
    let now = UtcTime { secs: 1_000, nanos: 0 };
    let token = "ses_abc";
    let other = hash_token("ses_zzz").unwrap();
    let mine = hash_token(token).unwrap();
    let records = vec![record(1, 10, other.clone(), "session", None), record(2, 20, mine.clone(), "session", None)];
    let (user, t) = match_token_record(token, &records, now).unwrap();
    assert_eq!(user.id, 20);
    assert_eq!(t, TokenType::Session);

    let none = vec![record(1, 10, other.clone(), "session", None)];
    assert!(matches!(match_token_record(token, &none, now), Err(AppError::Auth(AuthError::InvalidToken))));

    let expired = vec![record(2, 20, mine.clone(), "session", Some(UtcTime { secs: 999, nanos: 999 }))];
    assert!(matches!(match_token_record(token, &expired, now), Err(AppError::Auth(AuthError::TokenExpired))));

    let not_yet = vec![record(2, 20, mine.clone(), "session", Some(UtcTime { secs: 1_000, nanos: 0 }))];
    assert!(match_token_record(token, &not_yet, now).is_ok());

    let odd_type = vec![record(2, 20, mine.clone(), "magic", None)];
    assert!(matches!(match_token_record(token, &odd_type, now), Err(AppError::Auth(AuthError::InvalidTokenType))));

    let broken = vec![record(1, 10, "garbage".to_string(), "session", None), record(2, 20, mine, "session", None)];
    assert!(matches!(match_token_record(token, &broken, now), Err(AppError::Auth(AuthError::TokenHashError))));
}

#[test]
fn session_eviction_and_api_key_quota() {
    let recs: Vec<AccessTokenRecord> = (0..10).map(|i| record(100 + i, 1, String::new(), "session", None)).collect();
    assert_eq!(session_to_evict(&recs), Some(100));
    assert_eq!(session_to_evict(&recs[..9].iter().map(|r| record(r.id, 1, String::new(), "session", None)).collect()), None);
    assert!(check_api_key_quota(2).is_ok());
    match check_api_key_quota(3) {
        Err(AppError::Forbidden(m)) => assert_eq!(m, "Maximum limit of 3 API keys reached. Please revoke an existing key first."),
        other => panic!("unexpected {:?}", other),
    }
}

#[test]
fn generated_tokens_announce_their_kind() {
    for t in [TokenType::Session, TokenType::ApiKey] {
        let token = generate_token(&t);
        assert_eq!(token_type_of(&token).unwrap(), t);
        assert_eq!(TokenType::from_str(t.as_str()), Some(t));
        assert_eq!(TokenType::from_prefix(t.prefix()), Some(t));
    }
}

#[test]
fn hashing_succeeds_on_ordinary_tokens() {
    for t in ["", "x", "ses_abc", "a much longer password with spaces and ünïcödé"] {
        let h = hash_token(t).unwrap();
        assert_eq!(verify_token(t, &h), Ok(true));
    }
}

#[test]
fn sessions_evict_the_oldest_once_ten_are_held() {
    // Simulates the stored sessions of one user across eleven logins.
    let mut stored: Vec<AccessTokenRecord> = Vec::new();
    for id in 1..=11i64 {
        if let Some(old) = session_to_evict(&stored) {
            stored.retain(|r| r.id != old);
        }
        stored.push(record(id, 1, String::new(), "session", None));
        assert!(stored.len() <= 10);
    }
    assert_eq!(stored.len(), 10);
    assert_eq!(stored[0].id, 2);
    assert_eq!(stored[9].id, 11);
}

#[test]
fn tokens_are_the_prefix_and_the_random_part() {
    assert_eq!(token_with_random(&TokenType::Session, "abc123"), "ses_abc123");
    assert_eq!(token_with_random(&TokenType::ApiKey, ""), "fgk_");
}

#[test]
fn a_session_plan_evicts_the_oldest_and_expires_in_thirty_days() {
    let now = UtcTime { secs: 1_000, nanos: 3 };
    let ten: Vec<AccessTokenRecord> = (0..10).map(|i| record(40 + i, 1, String::new(), "session", None)).collect();
    let plan = plan_session(&ten, now);
    assert_eq!(plan.evict, Some(40));
    assert_eq!(plan.expires_at, UtcTime { secs: 1_000 + 2_592_000, nanos: 3 });
    assert_eq!(plan.token.len(), 68);
    assert!(plan.token.starts_with("ses_"));
    assert_eq!(verify_token(&plan.token, &plan.token_hash), Ok(true));
    let few: Vec<AccessTokenRecord> = ten.into_iter().take(3).collect();
    assert_eq!(plan_session(&few, now).evict, None);
}
