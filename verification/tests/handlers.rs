use register_spf_api::error::AppError;
use register_spf_api::handlers::{
    check_availability, check_comment_owner, check_email_provider, check_email_reachable, screen_email_provider,
    check_font_deletion, check_font_file, check_password, check_slug_free, check_snippet_deletion,
    check_upload_fields, check_version_free, check_version_upload, font_file_path,
    font_search_limit, parse_version, session_response, snippet_search_limit, tag_slug,
    validate_registration,
};
use register_spf_api::model::{PublicUser, UtcTime};
use register_spf_api::token::hash_token;

fn msg(r: Result<(), AppError>) -> String {
    match r {
        Err(AppError::BadRequest(m, _)) | Err(AppError::Forbidden(m)) | Err(AppError::Unauthorized(m))
        | Err(AppError::Internal(m)) => m,
        other => panic!("unexpected {:?}", other),
    }
}

#[test]
fn registration_rules() {
    assert!(validate_registration("alice", "password1", "a@b.c").is_ok());
    assert_eq!(msg(validate_registration("al", "password1", "a@b.c")), "Username must be between 3 and 30 characters");
    assert_eq!(msg(validate_registration(&"a".repeat(31), "password1", "a@b.c")), "Username must be between 3 and 30 characters");
    assert_eq!(msg(validate_registration("f u c k", "password1", "a@b.c")), "Username contains inappropriate content");
    assert_eq!(msg(validate_registration("alice", "short", "a@b.c")), "Password must be between 8 and 50 characters");
    assert_eq!(msg(validate_registration("alice", &"p".repeat(51), "a@b.c")), "Password must be between 8 and 50 characters");
    assert_eq!(msg(validate_registration("alice", "password1", "ab.c")), "Email address is invalid");
    // Lengths are counted in characters, not bytes.
    assert_eq!(msg(validate_registration("éé", "password1", "a@b.c")), "Username must be between 3 and 30 characters");
    assert!(validate_registration("ééé", "password1", "a@b.c").is_ok());
    assert!(validate_registration(&"é".repeat(30), "password1", "a@b.c").is_ok());
    assert_eq!(msg(validate_registration("alice", "éééé", "a@b.c")), "Password must be between 8 and 50 characters");
    assert!(validate_registration("alice", &"é".repeat(50), "a@b.c").is_ok());
    assert_eq!(msg(check_availability(false, false)), "Username is already taken");
    assert_eq!(msg(check_availability(true, false)), "Email address is already taken");
    assert!(check_availability(true, true).is_ok());
    assert_eq!(msg(check_email_reachable(false)), "Email address is not reachable");
    assert!(check_email_reachable(true).is_ok());
}

#[test]
fn disposable_providers_are_refused_with_context() {
    assert!(check_email_provider(true).is_ok());
    match check_email_provider(false) {
        Err(AppError::BadRequest(m, Some(ctx))) => {
            assert_eq!(m, "Email provider not allowed");
            assert_eq!(ctx.entries, vec![("reason".to_string(), "disposable_provider".to_string())]);
        }
        other => panic!("unexpected {:?}", other),
    }
    assert!(screen_email_provider("someone@gmail.com").is_ok());
    assert!(matches!(screen_email_provider("someone@yopmail.com"), Err(AppError::BadRequest(_, Some(_)))));
}

#[test]
fn password_check() {
    let h = hash_token("correct horse").unwrap();
    assert!(check_password("correct horse", &h).is_ok());
    assert_eq!(msg(check_password("wrong", &h)), "Invalid credentials");
    assert_eq!(msg(check_password("x", "not a hash")), "Security hash error");
}

#[test]
fn session_answer_expires_in_thirty_days() {
    let r = session_response(PublicUser { id: 3, username: "bob".to_string() }, "ses_t".to_string(), UtcTime { secs: 100, nanos: 7 });
    assert_eq!(r.token_type, "session");
    assert_eq!(r.token, "ses_t");
    assert_eq!(r.user.id, 3);
    assert_eq!(r.expires_at, Some(UtcTime { secs: 100 + 2_592_000, nanos: 7 }));
}

#[test]
fn ownership_rules() {
    assert!(check_comment_owner(1, 1).is_ok());
    assert_eq!(msg(check_comment_owner(1, 2)), "Not your comment");
    assert!(check_font_deletion(Some(5), 5).is_ok());
    assert_eq!(msg(check_font_deletion(None, 5)), "You do not have permission to delete this font");
    assert_eq!(msg(check_font_deletion(Some(4), 5)), "You do not have permission to delete this font");
    assert!(check_version_upload(Some(5), 5).is_ok());
    assert_eq!(msg(check_version_upload(Some(6), 5)), "Not your font");
    assert!(check_snippet_deletion(Some(5), 5).is_ok());
    assert_eq!(msg(check_snippet_deletion(None, 5)), "You do not have permission to delete this snippet");
}

#[test]
fn upload_field_rules() {
    let tags: Vec<String> = vec!["pixel".to_string()];
    assert!(check_upload_fields("Font", &Some("d".to_string()), &tags, &None).is_ok());
    assert_eq!(msg(check_upload_fields("f u c k", &None, &tags, &None)), "Name contains inappropriate content");
    assert_eq!(msg(check_upload_fields("Font", &Some("f u c k".to_string()), &tags, &None)), "Description contains inappropriate content");
    let bad: Vec<String> = vec!["ok".to_string(), "f u c k".to_string()];
    assert_eq!(msg(check_upload_fields("Font", &None, &bad, &None)), "Tag contains inappropriate content");
    let many: Vec<String> = (0..11).map(|i| format!("t{}", i)).collect();
    assert_eq!(msg(check_upload_fields("Font", &None, &many, &None)), "Too many tags");
    assert_eq!(msg(check_upload_fields("Font", &None, &tags, &Some("f u c k".to_string()))), "Changelog contains inappropriate content");
    assert_eq!(msg(check_slug_free(true)), "Slug is already taken");
    assert!(check_slug_free(false).is_ok());
    assert_eq!(msg(check_version_free(true)), "Version already exists");
    assert!(check_version_free(false).is_ok());
}

#[test]
fn font_file_is_required_and_decoded() {
    assert_eq!(msg(check_font_file(None)), "File is required");
    assert!(check_font_file(Some(Ok(()))).is_ok());
    match check_font_file(Some(Err("InvalidSignature".to_string()))) {
        Err(AppError::SPF(m)) => assert_eq!(m, "InvalidSignature"),
        other => panic!("unexpected {:?}", other),
    }
}

#[test]
fn names_paths_and_limits() {
    assert_eq!(font_file_path("tiny", 3), "tiny/tiny-v3.spf");
    assert_eq!(font_file_path("tiny", -1), "tiny/tiny-v-1.spf");
    assert_eq!(tag_slug("Hand Drawn Serif"), "hand-drawn-serif");
    assert_eq!(font_search_limit(None), 50);
    assert_eq!(font_search_limit(Some(10)), 10);
    assert_eq!(font_search_limit(Some(0)), 0);
    assert_eq!(font_search_limit(Some(-5)), 50);
    assert_eq!(font_search_limit(Some(80)), 80);
    assert_eq!(snippet_search_limit(None), 50);
    assert_eq!(snippet_search_limit(Some(0)), 1);
    assert_eq!(snippet_search_limit(Some(20)), 20);
    assert_eq!(snippet_search_limit(Some(500)), 50);
}

#[test]
fn version_numbers_parse_like_std() {
    for s in ["", "+", "-", "12", "-12", "+12", "1a", " 1", "9223372036854775807", "9223372036854775808", "-9223372036854775808", "-9223372036854775809", "00012", "99999999999999999999999"] {
        assert_eq!(parse_version(s), s.parse::<i64>().unwrap_or_default(), "input {:?}", s);
    }
}
