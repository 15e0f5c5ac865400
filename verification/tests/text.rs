use ctx_hub::domain::text::{decimal_string, is_blank, join_strings, split_whitespace, str_equal};

#[test]
fn split_then_join_gives_back_the_words() {
    let words = vec!["alpha".to_string(), "beta".to_string(), "支付".to_string()];
    let joined = join_strings(&words, " ");
    assert_eq!(joined, "alpha beta 支付");
    assert_eq!(split_whitespace(&joined), words);
}

#[test]
fn split_drops_empty_words() {
    assert_eq!(split_whitespace("  a\t\nb  "), vec!["a", "b"]);
    assert!(split_whitespace("").is_empty());
    assert!(split_whitespace(" \u{3000} ").is_empty());
}

#[test]
fn blank_is_all_whitespace() {
    assert!(is_blank(""));
    assert!(is_blank(" \t\n"));
    assert!(!is_blank(" x "));
}

#[test]
fn decimals_are_written_in_base_ten() {
    assert_eq!(decimal_string(0), "0");
    assert_eq!(decimal_string(7), "7");
    assert_eq!(decimal_string(1024), "1024");
    assert_eq!(decimal_string(u64::MAX), "18446744073709551615");
}

#[test]
fn join_with_separator() {
    assert_eq!(join_strings(&vec![], "; "), "");
    assert_eq!(join_strings(&vec!["a".to_string()], "; "), "a");
    assert_eq!(join_strings(&vec!["a".to_string(), "b".to_string()], "; "), "a; b");
}

#[test]
fn string_equality() {
    assert!(str_equal("支付", "支付"));
    assert!(!str_equal("支付", "支"));
}
