use ctx_hub::domain::output::{format_record_detail, format_results, format_tags};
use ctx_hub::domain::record::RecordDetail;
use ctx_hub::domain::search::SearchResult;
use ctx_hub::domain::tags::count_tags;

fn detail(key: Option<&str>) -> RecordDetail {
    RecordDetail {
        id: "ctx_1".to_string(),
        key: key.map(str::to_string),
        title: "Title".to_string(),
        content: "line one\nline two".to_string(),
        tags_text: "a b".to_string(),
        service: Some("svc".to_string()),
        env: None,
        source: None,
        created_at: "2026-01-01T00:00:00Z".to_string(),
        updated_at: "2026-01-02T00:00:00Z".to_string(),
    }
}

#[test]
fn record_detail_lists_fields_then_content() {
    assert_eq!(
        format_record_detail(&detail(Some("k"))),
        "id: ctx_1\nkey: k\ntitle: Title\ntags: a b\nservice: svc\nenv: \nsource: \ncreated_at: 2026-01-01T00:00:00Z\nupdated_at: 2026-01-02T00:00:00Z\n\nline one\nline two"
    );
    assert!(format_record_detail(&detail(None)).starts_with("id: ctx_1\nkey: \ntitle"));
}

#[test]
fn empty_result_list_says_no_results() {
    assert_eq!(format_results(&Vec::new()), "no results\n");
}

#[test]
fn results_are_numbered_blocks() {
    let results = vec![
        SearchResult {
            rowid: 1,
            key: Some("runbook.payment.failed".to_string()),
            title: "Payment".to_string(),
            tags_text: "payment runbook".to_string(),
            service: Some("payment-service".to_string()),
            env: Some("test".to_string()),
            snippet: "first\nsecond".to_string(),
            match_kind: "fts".to_string(),
        },
        SearchResult {
            rowid: 2,
            key: None,
            title: "Other".to_string(),
            tags_text: String::new(),
            service: None,
            env: None,
            snippet: "x".to_string(),
            match_kind: "trigram".to_string(),
        },
    ];
    assert_eq!(
        format_results(&results),
        "[1] runbook.payment.failed\ntitle: Payment\ntags: payment runbook\nservice: payment-service\nenv: test\nsource: fts\nsnippet: first second\n\n\
         [2] <no-key>\ntitle: Other\ntags: \nsource: trigram\nsnippet: x\n\n"
    );
}

#[test]
fn tag_table_is_tab_separated_lines() {
    let table = count_tags(&vec!["payment runbook".to_string(), "payment".to_string()]);
    assert_eq!(format_tags(&table), "payment\t2\nrunbook\t1\n");
    assert_eq!(format_tags(&Vec::new()), "");
}
