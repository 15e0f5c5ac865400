use ctx_hub::domain::search::{
    filter_by_service, filter_by_tag, merge_search_results, wants_trigram, SearchResult,
};

fn hit(rowid: i64, kind: &str) -> SearchResult {
    SearchResult {
        rowid,
        key: Some(format!("k{rowid}")),
        title: format!("t{rowid}"),
        tags_text: String::new(),
        service: None,
        env: None,
        snippet: String::new(),
        match_kind: kind.to_string(),
    }
}

fn tagged(rowid: i64, tags: &str, service: Option<&str>) -> SearchResult {
    SearchResult {
        tags_text: tags.to_string(),
        service: service.map(str::to_string),
        ..hit(rowid, "tag")
    }
}

fn ids(v: &[SearchResult]) -> Vec<i64> {
    v.iter().map(|r| r.rowid).collect()
}

#[test]
fn merge_puts_exact_first_and_drops_repeats() {
    let merged = merge_search_results(
        Some(hit(2, "exact")),
        vec![hit(1, "fts"), hit(2, "fts"), hit(3, "fts")],
        vec![hit(3, "trigram"), hit(4, "trigram")],
        10,
    );
    assert_eq!(ids(&merged), vec![2, 1, 3, 4]);
    let kinds: Vec<&str> = merged.iter().map(|r| r.match_kind.as_str()).collect();
    assert_eq!(kinds, vec!["exact", "fts", "fts", "trigram"]);
}

#[test]
fn merge_cuts_at_limit() {
    let merged = merge_search_results(
        None,
        vec![hit(1, "fts"), hit(2, "fts")],
        vec![hit(3, "trigram")],
        2,
    );
    assert_eq!(ids(&merged), vec![1, 2]);
    assert!(merge_search_results(Some(hit(1, "exact")), vec![], vec![], 0).is_empty());
}

#[test]
fn merging_in_two_steps_is_merging_once() {
    let once = merge_search_results(
        Some(hit(5, "exact")),
        vec![hit(1, "fts"), hit(5, "fts")],
        vec![hit(1, "trigram"), hit(7, "trigram")],
        3,
    );
    let found = merge_search_results(
        Some(hit(5, "exact")),
        vec![hit(1, "fts"), hit(5, "fts")],
        vec![],
        usize::MAX,
    );
    let twice = merge_search_results(
        None,
        found,
        vec![hit(1, "trigram"), hit(7, "trigram")],
        3,
    );
    assert_eq!(ids(&once), ids(&twice));
    assert_eq!(ids(&once), vec![5, 1, 7]);
}

#[test]
fn trigram_lookup_needs_three_characters_and_room() {
    assert!(wants_trigram("skipTes", 0, 10));
    assert!(wants_trigram("api", 9, 10));
    assert!(!wants_trigram("ap", 0, 10));
    assert!(!wants_trigram("   ", 0, 10));
    assert!(!wants_trigram("skipTes", 10, 10));
    // Three CJK characters are three characters, not nine bytes.
    assert!(wants_trigram("支付失", 0, 10));
    assert!(!wants_trigram("支付", 0, 10));
}

#[test]
fn tag_filter_keeps_whole_tags_in_order() {
    let kept = filter_by_tag(
        vec![
            tagged(1, "runbook", None),
            tagged(2, "storybook", None),
            tagged(3, "ops runbook", None),
            tagged(4, "run", None),
        ],
        "runbook",
        10,
    );
    assert_eq!(ids(&kept), vec![1, 3]);
    let one = filter_by_tag(vec![tagged(1, "a", None), tagged(2, "a", None)], "a", 1);
    assert_eq!(ids(&one), vec![1]);
}

#[test]
fn service_filter_keeps_exact_service() {
    let kept = filter_by_service(
        vec![
            tagged(1, "", Some("payment-service")),
            tagged(2, "", Some("payment")),
            tagged(3, "", None),
            tagged(4, "", Some("payment-service")),
        ],
        "payment-service",
        10,
    );
    assert_eq!(ids(&kept), vec![1, 4]);
    assert!(filter_by_service(vec![tagged(1, "", Some("x"))], "x", 0).is_empty());
}
