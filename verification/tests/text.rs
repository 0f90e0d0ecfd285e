use register_spf_api::text::{
    contains_char, i64_to_decimal, is_url_component_safe, same_text, split_tags,
    strip_prefix_text, text_contains, u64_to_decimal,
};

#[test]
fn url_component_safety() {
    assert!(is_url_component_safe("abc-DEF_123.~"));
    assert!(is_url_component_safe(""));
    assert!(!is_url_component_safe("a b"));
    assert!(!is_url_component_safe("é"));
    assert!(!is_url_component_safe("a/b"));
}

#[test]
fn decimal_notation() {
    assert_eq!(u64_to_decimal(0), "0");
    assert_eq!(u64_to_decimal(40), "40");
    assert_eq!(u64_to_decimal(u64::MAX), u64::MAX.to_string());
    assert_eq!(i64_to_decimal(-7), "-7");
    assert_eq!(i64_to_decimal(i64::MIN), i64::MIN.to_string());
    assert_eq!(i64_to_decimal(i64::MAX), i64::MAX.to_string());
}

#[test]
fn substring_and_prefix() {
    assert!(text_contains("hello world", "o w"));
    assert!(text_contains("abc", ""));
    assert!(!text_contains("abc", "abcd"));
    assert!(contains_char("a@b", '@'));
    assert!(!contains_char("ab", '@'));
    assert!(same_text("x", "x"));
    assert!(!same_text("x", "y"));
    assert_eq!(strip_prefix_text("Bearer abc", "Bearer "), Some("abc".to_string()));
    assert_eq!(strip_prefix_text("Basic abc", "Bearer "), None);
}

#[test]
fn comma_separated_tags() {
    assert_eq!(split_tags(" serif, pixel ,mono"), vec!["serif", "pixel", "mono"]);
    assert_eq!(split_tags(""), vec![""]);
    assert_eq!(split_tags("a,,b"), vec!["a", "", "b"]);
    assert_eq!(split_tags("\u{3000}x\u{a0}"), vec!["x"]);
}
