use register_spf_api::error::AppError;
use register_spf_api::validation::{validate_comment, validate_font, validate_snippet};

fn bad_request_message(r: Result<(), AppError>) -> String {
    match r {
        Err(AppError::BadRequest(m, None)) => m,
        other => panic!("expected a bad request, got {:?}", other),
    }
}

#[test]
fn comment_plain_text_is_accepted() {
    assert!(validate_comment("Lovely pixel font, thanks!").is_ok());
}

#[test]
fn comment_too_many_characters() {
    let text = "a".repeat(201);
    assert_eq!(bad_request_message(validate_comment(&text)), "Comment too long (max 200 characters)");
}

#[test]
fn comment_at_character_limit_is_accepted() {
    let text = "a".repeat(200);
    assert!(validate_comment(&text).is_ok());
}

#[test]
fn comment_too_many_bytes() {
    // 200 user-perceived characters of 9 bytes each: under the character limit, over the byte limit.
    let text = "\u{1F468}\u{200D}\u{1F469}".repeat(200);
    assert_eq!(
        bad_request_message(validate_comment(&text)),
        "Comment exceeded byte limit (max 1600 bytes)"
    );
}

#[test]
fn comment_inappropriate() {
    assert_eq!(
        bad_request_message(validate_comment("f u c k")),
        "Comment contains inappropriate content"
    );
}

fn font(name: &str, slug: &str, description: Option<&str>, tags: &[&str], changelog: Option<&str>) -> Result<(), AppError> {
    validate_font(
        name,
        slug,
        &description.map(|s| s.to_string()),
        &tags.iter().map(|s| s.to_string()).collect(),
        &changelog.map(|s| s.to_string()),
    )
}

#[test]
fn font_valid_submission() {
    assert!(font("Tiny Pixels", "tiny-pixels_v1.0~x", Some("A small font"), &["pixel", "serif"], Some("first")).is_ok());
}

#[test]
fn font_errors_in_order() {
    assert_eq!(bad_request_message(font("f u c k", "", None, &[], None)), "Name contains inappropriate content");
    assert_eq!(bad_request_message(font(&"n".repeat(81), "", None, &[], None)), "Name too long (max 80 characters)");
    assert_eq!(bad_request_message(font("ok", "", None, &[], None)), "Slug is required");
    assert_eq!(bad_request_message(font("ok", &"s".repeat(81), None, &[], None)), "Slug too long (max 80 characters)");
    assert_eq!(bad_request_message(font("ok", "has space", None, &[], None)), "Slug contains invalid characters");
    assert_eq!(bad_request_message(font("ok", "slug", Some(&"d".repeat(501)), &[], None)), "Description too long (max 500 characters)");
    assert_eq!(bad_request_message(font("ok", "slug", None, &[&"t".repeat(81)], None)), "Tag too long (max 80 characters)");
    assert_eq!(bad_request_message(font("ok", "slug", None, &["fine", "f u c k"], None)), "Tag contains inappropriate content");
    let many = ["a"; 11];
    assert_eq!(bad_request_message(font("ok", "slug", None, &many, None)), "Too many tags");
    assert_eq!(bad_request_message(font("ok", "slug", None, &[], Some(&"c".repeat(501)))), "Changelog too long (max 500 characters)");
}

#[test]
fn font_ten_tags_allowed() {
    let ten = ["a"; 10];
    assert!(font("ok", "slug", None, &ten, None).is_ok());
}

#[test]
fn font_name_byte_limit() {
    // 80 characters of 9 bytes each exceed 640 bytes.
    let name = "\u{1F468}\u{200D}\u{1F469}".repeat(80);
    assert_eq!(bad_request_message(font(&name, "slug", None, &[], None)), "Name exceeded byte limit (max 640 bytes)");
}

#[test]
fn snippet_checks() {
    assert!(validate_snippet("name", Some("desc"), "source").is_ok());
    assert!(validate_snippet("name", None, "source").is_ok());
    assert_eq!(bad_request_message(validate_snippet("", None, "s")), "Name is required");
    assert_eq!(bad_request_message(validate_snippet(&"n".repeat(81), None, "s")), "Name too long (max 80 characters)");
    assert_eq!(bad_request_message(validate_snippet("f u c k", None, "s")), "Name contains inappropriate content");
    assert_eq!(bad_request_message(validate_snippet("ok", Some(&"d".repeat(501)), "s")), "Description too long (max 500 characters)");
    assert_eq!(bad_request_message(validate_snippet("ok", Some("f u c k"), "s")), "Description contains inappropriate content");
    assert_eq!(bad_request_message(validate_snippet("ok", None, "")), "Source is required");
    assert_eq!(bad_request_message(validate_snippet("ok", None, &"x".repeat(16385))), "Source too large (max 16 KB)");
    assert!(validate_snippet("ok", None, &"x".repeat(16384)).is_ok());
}
