use claude_code_rs::commands::advisor::AdvisorCommand;
use claude_code_rs::services::diagnostic::diagnostics_request_args;
use claude_code_rs::text::{
    i64_to_string, join_strings, parse_u64, str_contains, str_ends_with, str_starts_with, trim, u64_to_string,
};
use claude_code_rs::tools::brief::debug_string_list;

#[test]
fn trim_removes_surrounding_whitespace() {
    assert_eq!(trim("  a b \n\t"), "a b");
    assert_eq!(trim("   "), "");
}

#[test]
fn parse_u64_accepts_digits_with_optional_plus() {
    assert_eq!(parse_u64("42"), Some(42));
    assert_eq!(parse_u64("+7"), Some(7));
    assert_eq!(parse_u64("0007"), Some(7));
    assert_eq!(parse_u64("18446744073709551615"), Some(u64::MAX));
}

#[test]
fn parse_u64_refuses_what_std_refuses() {
    assert_eq!(parse_u64(""), None);
    assert_eq!(parse_u64("+"), None);
    assert_eq!(parse_u64("-1"), None);
    assert_eq!(parse_u64("12a"), None);
    assert_eq!(parse_u64(" 1"), None);
    assert_eq!(parse_u64("18446744073709551616"), None);
}

#[test]
fn parse_u64_agrees_with_std() {
    for s in ["0", "99", "+99", "1e3", "", "184467440737095516150", "00"] {
        assert_eq!(parse_u64(s), s.parse::<u64>().ok(), "on {:?}", s);
    }
}

#[test]
fn decimal_strings() {
    assert_eq!(u64_to_string(0), "0");
    assert_eq!(u64_to_string(1234), "1234");
    assert_eq!(i64_to_string(-5), "-5");
    assert_eq!(i64_to_string(i64::MIN), "-9223372036854775808");
    assert_eq!(i64_to_string(i64::MAX), "9223372036854775807");
}

#[test]
fn lowercase_wrapper_lowercases() {
    assert_eq!(
        AdvisorCommand::handle_advisor("HeLLo Wörld", None, "sonnet"),
        Ok(("Invalid or unknown advisor model: hello wörld".to_string(), None))
    );
    assert_eq!(
        AdvisorCommand::handle_advisor("ASSISTANT-WÖRLD", None, "sonnet"),
        Ok(("Advisor set to assistant-wörld.".to_string(), Some("assistant-wörld".to_string())))
    );
}

#[test]
fn debug_wrapper_quotes_and_escapes() {
    assert_eq!(debug_string_list(&vec!["a\"b".to_string()]), "[\"a\\\"b\"]");
    assert_eq!(debug_string_list(&vec!["x".to_string(), "y\n".to_string()]), "[\"x\", \"y\\n\"]");
}

#[test]
fn json_wrapper_quotes_and_escapes() {
    assert_eq!(diagnostics_request_args("a\"b\n"), "{\"uri\":\"file://a\\\"b\\n\"}");
    assert_eq!(diagnostics_request_args("\u{1}\u{1f}é\t\\"), "{\"uri\":\"file://\\u0001\\u001fé\\t\\\\\"}");
}

#[test]
fn string_helpers() {
    assert_eq!(claude_code_rs::text::concat("ab", "cd"), "abcd");
    assert!(str_contains("hello", "ell"));
    assert!(!str_contains("hello", "eel"));
    assert!(str_starts_with("hello", "he"));
    assert!(str_ends_with("hello", "lo"));
    assert_eq!(join_strings(&vec!["a".to_string(), "b".to_string(), "c".to_string()], ", "), "a, b, c");
    assert_eq!(join_strings(&vec![], ", "), "");
}
