use ctx_hub::domain::record::RecordInput;
use ctx_hub::error::CtxError;
use ctx_hub::storage::sqlite::SqliteStorage;

fn open_storage() -> Result<SqliteStorage, CtxError> {
    let storage = SqliteStorage::open(":memory:")?;
    storage.init()?;
    Ok(storage)
}

fn insert_record(
    storage: &SqliteStorage,
    key: &str,
    title: &str,
    content: &str,
    tags: &[&str],
    service: Option<&str>,
) -> Result<(), CtxError> {
    let record = RecordInput::new(
        title.to_string(),
        content.to_string(),
        Some(key.to_string()),
        tags.iter().map(|tag| (*tag).to_string()).collect(),
        service.map(str::to_string),
        Some("test".to_string()),
        Some("search test".to_string()),
    )?;
    storage.insert_record(&record)
}

#[test]
fn cjk_ngram_search_finds_two_character_terms() -> Result<(), CtxError> {
    let storage = open_storage()?;

    insert_record(
        &storage,
        "runbook.payment.failed",
        "支付失败排查规则",
        "支付失败时先查询 payment_callback_log，再查询 payment-service 日志。",
        &["payment", "runbook"],
        Some("payment-service"),
    )?;

    let results = storage.search_records("支付", 10)?;

    assert!(results
        .iter()
        .any(|item| item.key.as_deref() == Some("runbook.payment.failed")));

    Ok(())
}

#[test]
fn cjk_ngram_search_finds_multi_character_terms() -> Result<(), CtxError> {
    let storage = open_storage()?;

    insert_record(
        &storage,
        "runbook.payment.failed",
        "支付失败排查规则",
        "支付失败时先查询 payment_callback_log，再查询 payment-service 日志。",
        &["payment", "runbook"],
        Some("payment-service"),
    )?;

    let results = storage.search_records("支付失败", 10)?;

    assert!(results
        .iter()
        .any(|item| item.key.as_deref() == Some("runbook.payment.failed")));

    Ok(())
}

#[test]
fn cjk_search_does_not_find_absent_terms() -> Result<(), CtxError> {
    let storage = open_storage()?;
    insert_record(
        &storage,
        "runbook.payment.failed",
        "支付失败排查规则",
        "支付失败时先查询日志。",
        &["payment"],
        Some("payment-service"),
    )?;
    let results = storage.search_records("订单", 10)?;
    assert!(results.is_empty());
    Ok(())
}
