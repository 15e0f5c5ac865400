use ctx_hub::domain::ngram::{is_cjk, make_search_ngrams};

fn grams(text: &str) -> Vec<String> {
    make_search_ngrams(text)
        .split_whitespace()
        .map(ToOwned::to_owned)
        .collect()
}

fn cjk(codepoint: u32) -> char {
    char::from_u32(codepoint).expect("valid cjk codepoint")
}

fn contains_gram(text: &str, gram: &str) -> bool {
    make_search_ngrams(text)
        .split_whitespace()
        .any(|item| item == gram)
}

#[test]
fn generates_two_and_three_char_chinese_ngrams() {
    let result = grams("支付失败");
    assert!(result.contains(&"支付".to_string()));
    assert!(result.contains(&"付失".to_string()));
    assert!(result.contains(&"失败".to_string()));
    assert!(result.contains(&"支付失".to_string()));
    assert!(result.contains(&"付失败".to_string()));
}

#[test]
fn generates_two_and_three_char_cjk_ngrams() {
    let a = cjk(0x4e0a);
    let b = cjk(0x4e0b);
    let c = cjk(0x6587);

    let text = format!("{a}{b}{c}");
    let gram_ab = format!("{a}{b}");
    let gram_bc = format!("{b}{c}");
    let gram_abc = format!("{a}{b}{c}");

    assert!(contains_gram(&text, &gram_ab));
    assert!(contains_gram(&text, &gram_bc));
    assert!(contains_gram(&text, &gram_abc));
}

#[test]
fn ngram_ignores_non_cjk_text() {
    assert!(make_search_ngrams("payment-service 401").is_empty());
    assert!(make_search_ngrams("alpha beta").is_empty());
}

#[test]
fn ngram_handles_mixed_text_by_cjk_runs() {
    let result = grams("payment支付失败-service订单异常");
    assert!(result.contains(&"支付".to_string()));
    assert!(result.contains(&"失败".to_string()));
    assert!(result.contains(&"订单".to_string()));
    assert!(result.contains(&"异常".to_string()));

    let a = cjk(0x4e0a);
    let b = cjk(0x4e0b);
    let c = cjk(0x6587);
    let d = cjk(0x6863);

    let text = format!("abc{a}{b}-def{c}{d}");
    let gram_ab = format!("{a}{b}");
    let gram_cd = format!("{c}{d}");

    assert!(contains_gram(&text, &gram_ab));
    assert!(contains_gram(&text, &gram_cd));
}

#[test]
fn ngram_deduplicates_repeated_ngrams() {
    let result = grams("支付支付");
    let count = result.iter().filter(|item| item.as_str() == "支付").count();
    assert_eq!(count, 1);

    let a = cjk(0x4e0a);
    let b = cjk(0x4e0b);

    let text = format!("{a}{b}{a}{b}");
    let gram_ab = format!("{a}{b}");
    let count = make_search_ngrams(&text)
        .split_whitespace()
        .filter(|item| *item == gram_ab)
        .count();

    assert_eq!(count, 1);
}

#[test]
fn ngram_short_single_char_cjk_input_has_no_ngrams() {
    assert!(make_search_ngrams("支").is_empty());

    let a = cjk(0x4e0a);
    let text = a.to_string();

    assert!(make_search_ngrams(&text).is_empty());
}

#[test]
fn ngrams_come_sorted_and_space_separated() {
    // The distinct 2- and 3-grams of "支付失败", in ascending order.
    let mut expected = vec!["支付", "付失", "失败", "支付失", "付失败"];
    expected.sort();
    assert_eq!(make_search_ngrams("支付失败"), expected.join(" "));
}

#[test]
fn ngrams_do_not_cross_non_cjk_characters() {
    // "付-失" is broken by the dash: no gram holds both sides.
    let result = grams("支付-失败");
    assert_eq!(result.len(), 2);
    assert!(result.contains(&"支付".to_string()));
    assert!(result.contains(&"失败".to_string()));
}

#[test]
fn ngrams_of_a_three_char_run_are_exactly_three() {
    assert_eq!(grams("订单异").len(), 3);
}

#[test]
fn cjk_ranges_are_recognised() {
    assert!(is_cjk('支'));
    assert!(is_cjk('\u{3400}'));
    assert!(is_cjk('\u{f900}'));
    assert!(!is_cjk('a'));
    assert!(!is_cjk('1'));
    assert!(!is_cjk(' '));
}

#[test]
fn ngrams_of_empty_text_are_empty() {
    assert_eq!(make_search_ngrams(""), "");
}

#[test]
fn push_ngrams_appends_windows_in_order() {
    let mut grams: Vec<String> = Vec::new();
    ctx_hub::domain::ngram::push_ngrams(&['b', 'a', 'a'], &mut grams);
    assert_eq!(grams, vec!["ba", "aa", "baa"]);
}

#[test]
fn push_ngrams_keeps_earlier_grams_and_duplicates() {
    let mut grams = vec!["zz".to_string()];
    ctx_hub::domain::ngram::push_ngrams(&['支', '付', '支', '付'], &mut grams);
    assert_eq!(grams, vec!["zz", "支付", "付支", "支付", "支付支", "付支付"]);
    let mut none = vec!["x".to_string()];
    ctx_hub::domain::ngram::push_ngrams(&['支'], &mut none);
    assert_eq!(none, vec!["x"]);
}

#[test]
fn joined_texts_have_the_grams_of_both_in_any_order() {
    assert_eq!(
        make_search_ngrams("支付失败 订单异常"),
        make_search_ngrams("订单异常-支付失败")
    );
    let mut both = grams("支付失败");
    both.extend(grams("订单异常"));
    both.sort();
    both.dedup();
    assert_eq!(grams("支付失败 订单异常"), both);
}
