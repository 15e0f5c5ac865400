use ctx_hub::domain::query::{make_fts_query, quote_fts_term};

#[test]
fn wraps_single_term_in_quotes() {
    let actual = make_fts_query("payment");
    assert_eq!(actual, "\"payment\"");
}

#[test]
fn preserves_dash_inside_quoted_term() {
    let actual = make_fts_query("payment-service");
    assert_eq!(actual, "\"payment-service\"");
}

#[test]
fn splits_whitespace_into_required_terms() {
    let actual = make_fts_query("clean package");
    assert_eq!(actual, "\"clean\" \"package\"");
}

#[test]
fn escapes_embedded_double_quotes() {
    let actual = make_fts_query("mock \"value\"");
    let expected = "\"mock\" \"\"\"value\"\"\"";
    assert_eq!(actual, expected);
}

#[test]
fn empty_query_stays_empty() {
    let actual = make_fts_query("   ");
    assert_eq!(actual, "");
}

#[test]
fn query_collapses_runs_of_mixed_whitespace() {
    assert_eq!(make_fts_query("\t a \n\n b  "), "\"a\" \"b\"");
}

#[test]
fn query_of_empty_text_is_empty() {
    assert_eq!(make_fts_query(""), "");
}

#[test]
fn query_splits_on_unicode_whitespace() {
    // U+3000 IDEOGRAPHIC SPACE separates words too.
    assert_eq!(make_fts_query("支付\u{3000}失败"), "\"支付\" \"失败\"");
}

#[test]
fn quoting_a_term_doubles_each_quote() {
    assert_eq!(quote_fts_term("\""), "\"\"\"\"");
    assert_eq!(quote_fts_term("a\"b"), "\"a\"\"b\"");
    assert_eq!(quote_fts_term(""), "\"\"");
}

#[test]
fn special_characters_stay_inside_quotes() {
    assert_eq!(make_fts_query("status:500 (retry)"), "\"status:500\" \"(retry)\"");
}
