use tool_proxy::repair::{remove_trailing_commas, repair_json_snippet, swap_quotes, RepairError};
use tool_proxy::strtool::{text_eq, trim_text};

#[test]
fn trim_removes_surrounding_whitespace() {
    assert_eq!(trim_text("  a b\t\n"), "a b");
    assert_eq!(trim_text("\n\t  "), "");
    assert_eq!(trim_text("x"), "x");
}

#[test]
fn text_eq_compares_characters() {
    assert!(text_eq("abc", "abc"));
    assert!(!text_eq("abc", "abd"));
    assert!(!text_eq("abc", "ab"));
}

#[test]
fn swap_quotes_replaces_single_quotes() {
    assert_eq!(swap_quotes("{'a': 'b'}"), "{\"a\": \"b\"}");
    assert_eq!(swap_quotes("none here"), "none here");
}

#[test]
fn trailing_comma_before_brace_is_removed() {
    assert_eq!(remove_trailing_commas("{\"a\": 1,}"), "{\"a\": 1}");
    assert_eq!(remove_trailing_commas("[1, 2, ]"), "[1, 2 ]");
    assert_eq!(remove_trailing_commas("a,b"), "a,b");
    assert_eq!(remove_trailing_commas(","), ",");
}

#[test]
fn repair_rejects_empty_input() {
    assert!(matches!(repair_json_snippet("   \n\t "), Err(RepairError::Empty)));
    assert!(matches!(repair_json_snippet(""), Err(RepairError::Empty)));
}

#[test]
fn repair_keeps_valid_text_unchanged() {
    let fixed = repair_json_snippet("{\"a\": 1}").unwrap();
    assert_eq!(fixed, "{\"a\": 1}");
}

#[test]
fn repair_normalizes_quotes_and_commas() {
    let fixed = repair_json_snippet("{'name': 'x',}").unwrap();
    assert_eq!(fixed, "{\"name\": \"x\"}");
}

#[test]
fn repair_wraps_bare_object_body() {
    let fixed = repair_json_snippet("\"a\": 1").unwrap();
    assert_eq!(fixed, "{\"a\": 1}");
}

#[test]
fn repair_reports_parse_failure() {
    let err = repair_json_snippet("{not json").unwrap_err();
    match err {
        RepairError::Parse(m) => assert!(!m.is_empty()),
        RepairError::Empty => panic!("expected a parse failure"),
    }
}

#[test]
fn repair_error_messages() {
    assert_eq!(RepairError::Empty.message(), "empty input");
    assert_eq!(
        RepairError::Parse(String::from("boom")).message(),
        "parse error: boom"
    );
}

#[test]
fn repairing_valid_text_matches_direct_parse() {
    let text = "{\"a\": [1, 2], \"b\": {\"c\": true}}";
    let direct: serde_json::Value = serde_json::from_str(text).unwrap();
    let repaired = repair_json_snippet(text).unwrap();
    let via: serde_json::Value = serde_json::from_str(&repaired).unwrap();
    assert_eq!(direct, via);
}
