use register_spf_api::error::AppError;
use register_spf_api::middleware::{
    IdentityProbe, IdentityStage, IdentityStep, RequestIdentity, begin_identity, comment_gate,
    continue_identity, font_upload_gate, rate_limit_gate,
};
use register_spf_api::ratelimit::{AuthUser, RateLimitTier, RateLimiter};
use register_spf_api::token::TokenType;

fn probe(auth: Option<&str>, key: Option<&str>) -> IdentityProbe {
    IdentityProbe { authorization: auth.map(|s| s.to_string()), api_key: key.map(|s| s.to_string()), ip: "10.0.0.1".to_string() }
}

fn resolve(p: &IdentityProbe, owner: impl Fn(&str) -> Option<(i64, TokenType)>) -> (RequestIdentity, usize) {
    let (mut stage, mut step): (IdentityStage, IdentityStep) = begin_identity(p);
    let mut checks = 0;
    loop {
        match step {
            IdentityStep::Done(identity) => return (identity, checks),
            IdentityStep::Validate(token) => {
                checks += 1;
                let (s, a) = continue_identity(stage, p, owner(&token));
                stage = s;
                step = a;
            }
        }
    }
}

fn known(token: &str) -> Option<(i64, TokenType)> {
    match token {
        "ses_good" => Some((1, TokenType::Session)),
        "fgk_good" => Some((2, TokenType::ApiKey)),
        _ => None,
    }
}

#[test]
fn bearer_token_wins() {
    let (id, checks) = resolve(&probe(Some("Bearer ses_good"), Some("fgk_good")), known);
    assert_eq!(checks, 1);
    match id {
        RequestIdentity::Authenticated(u, t) => {
            assert_eq!(u, AuthUser { id: 1, rate_limit_tier: RateLimitTier::Authenticated });
            assert_eq!(t, "ses_good");
        }
        other => panic!("unexpected {:?}", other),
    }
}

#[test]
fn unknown_bearer_falls_back_to_api_key() {
    let (id, checks) = resolve(&probe(Some("Bearer nope"), Some("fgk_good")), known);
    assert_eq!(checks, 2);
    assert!(matches!(id, RequestIdentity::Authenticated(AuthUser { id: 2, rate_limit_tier: RateLimitTier::ApiKey }, _)));
}

#[test]
fn public_key_and_anonymous() {
    let (id, checks) = resolve(&probe(Some("Basic x"), Some("sk_public_abc123...")), known);
    assert_eq!(checks, 0);
    assert!(matches!(id, RequestIdentity::Public(ref ip) if ip == "10.0.0.1"));
    let (id, _) = resolve(&probe(None, Some("fgk_bad")), known);
    assert!(matches!(id, RequestIdentity::Anonymous(_)));
    let (id, checks) = resolve(&probe(None, None), known);
    assert_eq!(checks, 0);
    assert!(matches!(id, RequestIdentity::Anonymous(_)));
}

#[test]
fn gate_refuses_over_allowance_with_limit_in_message() {
    let mut limiter = RateLimiter::new(vec![]);
    let anon = RequestIdentity::Anonymous("1.1.1.1".to_string());
    for i in 0..10 {
        assert!(rate_limit_gate(&mut limiter, &anon, i).is_ok());
    }
    match rate_limit_gate(&mut limiter, &anon, 10) {
        Err(AppError::TooManyRequests(m)) => assert_eq!(m, "Rate limit exceeded (10/min)."),
        other => panic!("unexpected {:?}", other),
    }
    let user = RequestIdentity::Authenticated(AuthUser { id: 5, rate_limit_tier: RateLimitTier::ApiKey }, "fgk_k".to_string());
    for i in 0..30 {
        assert!(rate_limit_gate(&mut limiter, &user, i).is_ok());
    }
    match rate_limit_gate(&mut limiter, &user, 31) {
        Err(AppError::TooManyRequests(m)) => assert_eq!(m, "Rate limit exceeded (30/min)."),
        other => panic!("unexpected {:?}", other),
    }
}

#[test]
fn upload_gate_counts_address_then_user() {
    let mut limiter = RateLimiter::new(vec![]);
    let u = AuthUser { id: 9, rate_limit_tier: RateLimitTier::Authenticated };
    assert!(font_upload_gate(&mut limiter, "2.2.2.2", Some(u), 0).is_ok());
    match font_upload_gate(&mut limiter, "2.2.2.2", Some(u), 1) {
        Err(AppError::TooManyRequests(m)) => assert_eq!(m, "IP upload rate limit exceeded (1/min)."),
        other => panic!("unexpected {:?}", other),
    }
    match font_upload_gate(&mut limiter, "3.3.3.3", Some(u), 2) {
        Err(AppError::TooManyRequests(m)) => assert_eq!(m, "User upload rate limit exceeded (1/min)."),
        other => panic!("unexpected {:?}", other),
    }
    assert!(font_upload_gate(&mut limiter, "4.4.4.4", None, 3).is_ok());
}

#[test]
fn comment_gate_needs_a_user() {
    let mut limiter = RateLimiter::new(vec![]);
    match comment_gate(&mut limiter, None, 0) {
        Err(AppError::Unauthorized(m)) => assert_eq!(m, "Auth required for comments"),
        other => panic!("unexpected {:?}", other),
    }
    let u = AuthUser { id: 4, rate_limit_tier: RateLimitTier::Authenticated };
    for i in 0..10 {
        assert!(comment_gate(&mut limiter, Some(u), i).is_ok());
    }
    match comment_gate(&mut limiter, Some(u), 11) {
        Err(AppError::TooManyRequests(m)) => assert_eq!(m, "Comment rate limit exceeded (10/min)."),
        other => panic!("unexpected {:?}", other),
    }
}
