use register_spf_api::error::{AppError, AuthError, ErrorContext};
use register_spf_api::token::TokenError;

#[test]
fn each_error_has_its_status_and_code() {
    let cases: Vec<(AppError, u16, &str, &str)> = vec![
        (AppError::bad_request("bad".to_string()), 400, "BAD_REQUEST", "bad"),
        (AppError::Unauthorized("who".to_string()), 401, "UNAUTHORIZED", "who"),
        (AppError::Forbidden("no".to_string()), 403, "FORBIDDEN", "no"),
        (AppError::NotFound("gone".to_string()), 404, "NOT_FOUND", "gone"),
        (AppError::Internal("oops".to_string()), 500, "INTERNAL_ERROR", "oops"),
        (AppError::TooManyRequests("slow".to_string()), 429, "RATE_LIMIT_EXCEEDED", "slow"),
        (AppError::Database("db".to_string()), 500, "DATABASE_ERROR", "db"),
        (AppError::SPF("spf".to_string()), 500, "SPF_ERROR", "spf"),
        (AppError::Auth(AuthError::InvalidToken), 401, "AUTH_ERROR", "Invalid authentication token"),
        (AppError::Auth(AuthError::TokenExpired), 401, "AUTH_ERROR", "Authentication token has expired"),
        (AppError::Auth(AuthError::InvalidTokenType), 401, "AUTH_ERROR", "Invalid token type provided"),
        (AppError::Auth(AuthError::TokenHashError), 401, "AUTH_ERROR", "Security processing error"),
    ];
    for (err, status, code, message) in cases {
        let (s, body) = err.into_response_parts();
        assert_eq!(s, status);
        assert_eq!(body.error, code);
        assert_eq!(body.message, message);
        assert!(body.context.is_none());
    }
}

#[test]
fn context_is_kept_for_bad_requests() {
    let ctx = ErrorContext { entries: vec![("reason".to_string(), "x".to_string())] };
    let (s, body) = AppError::with_context("m".to_string(), ctx).into_response_parts();
    assert_eq!(s, 400);
    let c = body.context.unwrap();
    assert_eq!(c.entries, vec![("reason".to_string(), "x".to_string())]);
}

#[test]
fn hashing_errors_become_authentication_errors() {
    assert_eq!(AuthError::from(TokenError::InvalidHash), AuthError::TokenHashError);
    assert!(matches!(AppError::from(TokenError::HashError), AppError::Auth(AuthError::TokenHashError)));
    assert!(matches!(AppError::from(AuthError::TokenExpired), AppError::Auth(AuthError::TokenExpired)));
}
