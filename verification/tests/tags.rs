use ctx_hub::domain::tags::{count_tags, has_tag, tag_count};

fn rows(texts: &[&str]) -> Vec<String> {
    texts.iter().map(|t| t.to_string()).collect()
}

#[test]
fn has_tag_matches_whole_words_only() {
    assert!(has_tag("payment runbook", "runbook"));
    assert!(has_tag("payment runbook", "payment"));
    assert!(!has_tag("payment runbook", "run"));
    assert!(!has_tag("storybook", "book"));
    assert!(!has_tag("", "runbook"));
    assert!(has_tag("  ops\tdb  ", "db"));
}

#[test]
fn counting_tags_gives_sorted_table() {
    let table = count_tags(&rows(&["payment runbook", "build", "payment"]));
    let tags: Vec<(&str, usize)> = table.iter().map(|t| (t.tag.as_str(), t.count)).collect();
    assert_eq!(tags, vec![("build", 1), ("payment", 2), ("runbook", 1)]);
}

#[test]
fn a_tag_repeated_in_one_row_counts_each_time() {
    let table = count_tags(&rows(&["ops ops", "ops"]));
    assert_eq!(table.len(), 1);
    assert_eq!(table[0].count, 3);
}

#[test]
fn counting_no_rows_gives_empty_table() {
    assert!(count_tags(&Vec::new()).is_empty());
    assert!(count_tags(&rows(&["   "])).is_empty());
}

#[test]
fn tag_count_reads_the_table() {
    let table = count_tags(&rows(&["payment runbook", "payment"]));
    assert_eq!(tag_count(&table, "payment"), Some(2));
    assert_eq!(tag_count(&table, "runbook"), Some(1));
    assert_eq!(tag_count(&table, "run"), None);
}

#[test]
fn cjk_tags_sort_after_ascii() {
    let table = count_tags(&rows(&["支付 zeta alpha"]));
    let tags: Vec<&str> = table.iter().map(|t| t.tag.as_str()).collect();
    assert_eq!(tags, vec!["alpha", "zeta", "支付"]);
}
