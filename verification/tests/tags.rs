use proto_awscli::text::{has_prefix, has_substring, is_digits_and_dots, same_text};
use proto_awscli::versions::{is_stable_v2, select_v2_tags};

#[test]
fn stable_v2_tags_are_recognised() {
    assert!(is_stable_v2("2.22.0"));
    assert!(is_stable_v2("2."));
    assert!(!is_stable_v2("1.18.69"));
    assert!(!is_stable_v2("2.0.0dev0"));
    assert!(!is_stable_v2("2.22.1rc1"));
    assert!(!is_stable_v2("2.3.0beta"));
    assert!(!is_stable_v2("2.3.0-alpha"));
    assert!(!is_stable_v2("v2.0.0"));
    assert!(!is_stable_v2("2"));
    assert!(!is_stable_v2(""));
}

#[test]
fn selection_keeps_order() {
    let tags: Vec<String> = ["2.1.0", "1.0.0", "2.0.5", "2.0.0rc1", "2.10.0"].iter().map(|t| t.to_string()).collect();
    assert_eq!(select_v2_tags(tags), vec!["2.1.0", "2.0.5", "2.10.0"]);
    assert!(select_v2_tags(Vec::new()).is_empty());
}

#[test]
fn text_predicates() {
    assert!(has_prefix("2.1", "2."));
    assert!(has_prefix("abc", ""));
    assert!(!has_prefix("2", "2."));
    assert!(has_substring("2.0dev1", "dev"));
    assert!(has_substring("rc", "rc"));
    assert!(has_substring("x", ""));
    assert!(!has_substring("2.0.0", "rc"));
    assert!(!has_substring("", "rc"));
    assert!(is_digits_and_dots("2.0.1"));
    assert!(is_digits_and_dots(""));
    assert!(!is_digits_and_dots("2.0.1a"));
    assert!(same_text("v2", "v2"));
    assert!(!same_text("v2", "v22"));
    assert!(has_substring("héllo wörld", "wö"));
}
