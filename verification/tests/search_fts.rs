use ctx_hub::domain::record::RecordInput;
use ctx_hub::error::CtxError;
use ctx_hub::storage::sqlite::SqliteStorage;

fn open_storage() -> Result<SqliteStorage, CtxError> {
    let storage = SqliteStorage::open(":memory:")?;
    storage.init()?;
    Ok(storage)
}

fn insert_record(
    storage: &SqliteStorage,
    key: &str,
    title: &str,
    content: &str,
    tags: &[&str],
    service: Option<&str>,
) -> Result<(), CtxError> {
    let record = RecordInput::new(
        title.to_string(),
        content.to_string(),
        Some(key.to_string()),
        tags.iter().map(|tag| (*tag).to_string()).collect(),
        service.map(str::to_string),
        Some("test".to_string()),
        Some("search test".to_string()),
    )?;
    storage.insert_record(&record)
}

#[test]
fn fts_searches_content_service_and_tags() -> Result<(), CtxError> {
    let storage = open_storage()?;

    insert_record(
        &storage,
        "runbook.payment.failed",
        "Payment failure runbook",
        "Check payment_callback_log before retrying the callback worker.",
        &["payment", "runbook"],
        Some("payment-service"),
    )?;

    for query in ["payment", "payment-service", "runbook"] {
        let results = storage.search_records(query, 10)?;
        assert!(
            results
                .iter()
                .any(|item| item.key.as_deref() == Some("runbook.payment.failed")),
            "expected query {query:?} to find payment runbook"
        );
    }

    let service_results = storage.search_records("payment-service", 10)?;
    let service_match = service_results
        .iter()
        .find(|item| item.key.as_deref() == Some("runbook.payment.failed"))
        .expect("expected service-name search to find payment runbook");
    assert!(service_match.snippet.contains("[payment-service]"));

    Ok(())
}

#[test]
fn tag_command_search_uses_exact_tag_boundaries() -> Result<(), CtxError> {
    let storage = open_storage()?;

    insert_record(
        &storage,
        "runbook.payment.failed",
        "Payment runbook",
        "Payment runbook content.",
        &["runbook"],
        Some("payment-service"),
    )?;
    insert_record(
        &storage,
        "notes.story",
        "Story note",
        "A note with a longer tag.",
        &["storybook"],
        Some("docs-service"),
    )?;

    let run_results = storage.search_by_tag("run", 10)?;
    assert!(run_results.is_empty());

    let runbook_results = storage.search_by_tag("runbook", 10)?;
    assert_eq!(runbook_results.len(), 1);
    assert_eq!(
        runbook_results.first().and_then(|item| item.key.as_deref()),
        Some("runbook.payment.failed")
    );

    Ok(())
}

#[test]
fn special_query_characters_do_not_break_search() -> Result<(), CtxError> {
    let storage = open_storage()?;

    insert_record(
        &storage,
        "runbook.special.query",
        "Special query runbook",
        "Investigate mock \"token\", status:500, payment-service, and /api/order errors.",
        &["runbook"],
        Some("payment-service"),
    )?;

    for query in [
        "mock \"token\"",
        "status:500",
        "payment-service",
        "/api/order",
        "(retry)",
    ] {
        let _ = storage.search_records(query, 10)?;
    }

    Ok(())
}

#[test]
fn snippets_highlight_matching_content() -> Result<(), CtxError> {
    let storage = open_storage()?;

    insert_record(
        &storage,
        "runbook.retry.callback",
        "Callback retry runbook",
        "When callback delivery fails, retry the callback worker after checking logs.",
        &["runbook"],
        Some("payment-service"),
    )?;

    let results = storage.search_records("retry", 10)?;
    let item = results
        .iter()
        .find(|item| item.key.as_deref() == Some("runbook.retry.callback"))
        .expect("expected retry runbook");

    assert!(item.snippet.contains("[retry]"));

    Ok(())
}

#[test]
fn blank_query_finds_nothing() -> Result<(), CtxError> {
    let storage = open_storage()?;
    insert_record(
        &storage,
        "runbook.retry.callback",
        "Callback retry runbook",
        "retry",
        &["runbook"],
        Some("payment-service"),
    )?;
    assert!(storage.search_records("   ", 10)?.is_empty());
    Ok(())
}

#[test]
fn service_search_keeps_only_that_service() -> Result<(), CtxError> {
    let storage = open_storage()?;
    insert_record(&storage, "a", "A", "first", &["x"], Some("payment-service"))?;
    insert_record(&storage, "b", "B", "second", &["x"], Some("payment-service-v2"))?;
    insert_record(&storage, "c", "C", "third", &["x"], None)?;
    let results = storage.search_by_service("payment-service", 10)?;
    assert_eq!(results.len(), 1);
    assert_eq!(results[0].key.as_deref(), Some("a"));
    assert_eq!(results[0].match_kind, "service");
    Ok(())
}

#[test]
fn tag_search_respects_limit() -> Result<(), CtxError> {
    let storage = open_storage()?;
    insert_record(&storage, "a", "A", "first", &["ops"], None)?;
    insert_record(&storage, "b", "B", "second", &["ops", "db"], None)?;
    insert_record(&storage, "c", "C", "third", &["db"], None)?;
    assert_eq!(storage.search_by_tag("ops", 10)?.len(), 2);
    assert_eq!(storage.search_by_tag("ops", 1)?.len(), 1);
    let tagged = storage.search_by_tag("db", 10)?;
    assert!(tagged.iter().all(|r| r.match_kind == "tag"));
    Ok(())
}
