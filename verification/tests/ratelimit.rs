use register_spf_api::ratelimit::{AuthUser, RateLimitTier, RateLimiter, WINDOW_NANOS};

const SEC: u64 = 1_000_000_000;

#[test]
fn tier_allowances_match_the_documented_table() {
    assert_eq!(RateLimitTier::Anonymous.max_requests(), 10);
    assert_eq!(RateLimitTier::Authenticated.max_requests(), 40);
    assert_eq!(RateLimitTier::ApiKey.max_requests(), 30);
    assert_eq!(RateLimitTier::FrontendPublic.max_requests(), 40);
    assert_eq!(RateLimitTier::Comment.max_requests(), 10);
    assert_eq!(RateLimitTier::FontUpload.max_requests(), 1);
    assert_eq!(RateLimitTier::Anonymous.window_duration(), 60 * SEC);
}

#[test]
fn anonymous_client_gets_ten_per_minute() {
    let mut limiter = RateLimiter::new(vec![]);
    let start = 1_000 * SEC;
    let allowed: usize = (0..15).filter(|i| limiter.check_ip("1.2.3.4", RateLimitTier::Anonymous, start + i * SEC)).count();
    assert_eq!(allowed, 10);
}

#[test]
fn window_resets_after_a_minute() {
    let mut limiter = RateLimiter::new(vec![]);
    let start = 5 * SEC;
    assert!(limiter.check_font_upload("9.9.9.9", start));
    assert!(!limiter.check_font_upload("9.9.9.9", start + 59 * SEC));
    assert!(limiter.check_font_upload("9.9.9.9", start + WINDOW_NANOS));
}

#[test]
fn keys_and_maps_are_independent() {
    let mut limiter = RateLimiter::new(vec![]);
    assert!(limiter.check_font_upload("a", 0));
    assert!(!limiter.check_font_upload("a", 1));
    assert!(limiter.check_font_upload("b", 1));
    assert!(limiter.check_ip("a", RateLimitTier::Anonymous, 1));
    assert!(limiter.check_token("a", RateLimitTier::ApiKey, 1));
}

#[test]
fn comment_limit_per_user() {
    let mut limiter = RateLimiter::new(vec![]);
    for i in 0..10 {
        assert!(limiter.check_comment_limit(-7, i));
    }
    assert!(!limiter.check_comment_limit(-7, 10));
    assert!(limiter.check_comment_limit(7, 10));
}

#[test]
fn cleanup_forgets_old_windows_only() {
    let mut limiter = RateLimiter::new(vec![]);
    assert!(limiter.check_font_upload("old", 0));
    assert!(limiter.check_font_upload("new", 100 * SEC));
    limiter.cleanup(130 * SEC);
    // "old" was forgotten: a fresh window; "new" is still counted.
    assert!(limiter.check_font_upload("old", 130 * SEC));
    assert!(!limiter.check_font_upload("new", 130 * SEC));
}

#[test]
fn trusted_domains_match_by_substring() {
    let limiter = RateLimiter::new(vec!["example.com".to_string(), "localhost:3000".to_string()]);
    assert!(limiter.is_trusted_domain("https://www.example.com"));
    assert!(limiter.is_trusted_domain("http://localhost:3000/app"));
    assert!(!limiter.is_trusted_domain("https://example.org"));
    let empty = RateLimiter::new(vec![]);
    assert!(!empty.is_trusted_domain("https://example.com"));
}

#[test]
fn auth_user_required() {
    let u = AuthUser { id: 3, rate_limit_tier: RateLimitTier::Authenticated };
    assert_eq!(AuthUser::from_request_extension(Some(u)).unwrap(), u);
    match AuthUser::from_request_extension(None) {
        Err(register_spf_api::error::AppError::Unauthorized(m)) => assert_eq!(m, "Authentication required"),
        other => panic!("unexpected {:?}", other),
    }
}

#[test]
fn cleanup_changes_no_later_decision() {
    let mut kept = RateLimiter::new(vec![]);
    let mut cleaned = RateLimiter::new(vec![]);
    for l in [&mut kept, &mut cleaned] {
        for i in 0..10u64 {
            l.check_ip("old", RateLimitTier::Anonymous, i * SEC);
        }
        l.check_ip("recent", RateLimitTier::Anonymous, 100 * SEC);
    }
    cleaned.cleanup(125 * SEC);
    for t in [125 * SEC, 126 * SEC, 170 * SEC] {
        assert_eq!(
            kept.check_ip("old", RateLimitTier::Anonymous, t),
            cleaned.check_ip("old", RateLimitTier::Anonymous, t)
        );
        assert_eq!(
            kept.check_ip("recent", RateLimitTier::Anonymous, t),
            cleaned.check_ip("recent", RateLimitTier::Anonymous, t)
        );
    }
}

#[test]
fn exactly_the_first_requests_of_a_window_pass() {
    let mut limiter = RateLimiter::new(vec![]);
    let start = 7 * SEC;
    let results: Vec<bool> = (0..35u64)
        .map(|i| limiter.check_token("fgk_key", RateLimitTier::ApiKey, start + i))
        .collect();
    let expected: Vec<bool> = (0..35).map(|i| i < 30).collect();
    assert_eq!(results, expected);
    // Refused requests left the count alone: the window still opens afresh a minute later.
    assert!(limiter.check_token("fgk_key", RateLimitTier::ApiKey, start + WINDOW_NANOS));
}
