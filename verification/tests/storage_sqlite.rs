use ctx_hub::domain::jsonl::JSONL_SCHEMA_VERSION;
use ctx_hub::domain::tags::tag_count;
use ctx_hub::domain::record::RecordInput;
use ctx_hub::error::CtxError;
use ctx_hub::storage::sqlite::SqliteStorage;

fn open_storage() -> Result<SqliteStorage, CtxError> {
    let storage = SqliteStorage::open(":memory:")?;
    storage.init()?;
    Ok(storage)
}

fn insert_record(
    storage: &SqliteStorage,
    key: &str,
    title: &str,
    content: &str,
    tags: &[&str],
    service: Option<&str>,
) -> Result<(), CtxError> {
    let record = RecordInput::new(
        title.to_string(),
        content.to_string(),
        Some(key.to_string()),
        tags.iter().map(|tag| (*tag).to_string()).collect(),
        service.map(str::to_string),
        Some("test".to_string()),
        Some("search test".to_string()),
    )?;
    storage.insert_record(&record)
}

#[test]
fn sqlite_storage_round_trip() -> Result<(), CtxError> {
    let storage = SqliteStorage::open(":memory:")?;

    storage.init()?;
    assert_eq!(storage.record_count()?, 0);

    let record = RecordInput::new(
        "支付失败排查规则".to_string(),
        "支付失败时先查询 payment_callback_log，再查询 payment-service 日志。".to_string(),
        Some("runbook.payment.failed".to_string()),
        vec!["payment".to_string(), "runbook".to_string()],
        Some("payment-service".to_string()),
        Some("test".to_string()),
        Some("storage test".to_string()),
    )?;

    storage.insert_record(&record)?;
    assert_eq!(storage.record_count()?, 1);

    let loaded = storage
        .get_record("runbook.payment.failed")?
        .expect("record should be found by key");
    assert_eq!(loaded.title, "支付失败排查规则");
    assert!(loaded.content.contains("payment_callback_log"));

    let zh_results = storage.search_records("支付", 10)?;
    assert!(zh_results
        .iter()
        .any(|item| item.key.as_deref() == Some("runbook.payment.failed")));

    let service_results = storage.search_records("payment-service", 10)?;
    assert!(service_results
        .iter()
        .any(|item| item.key.as_deref() == Some("runbook.payment.failed")));

    let tag_results = storage.search_by_tag("runbook", 10)?;
    assert!(tag_results
        .iter()
        .any(|item| item.key.as_deref() == Some("runbook.payment.failed")));

    let tags = storage.list_tags()?;
    assert_eq!(tag_count(&tags, "payment"), Some(1));
    assert_eq!(tag_count(&tags, "runbook"), Some(1));

    storage.rebuild_index()?;

    Ok(())
}

#[test]
fn storage_keeps_its_path() -> Result<(), CtxError> {
    let storage = SqliteStorage::open(":memory:")?;
    assert_eq!(storage.path(), ":memory:");
    Ok(())
}

#[test]
fn opening_in_a_missing_directory_is_a_storage_error() {
    let err = SqliteStorage::open("/nonexistent-ctx-hub-dir/sub/ctx.db")
        .and_then(|s| s.init().map(|_| s))
        .err()
        .expect("opening under a missing directory must fail");
    assert!(matches!(err, CtxError::Storage(_)));
}

#[test]
fn get_record_finds_by_id_and_misses_unknown() -> Result<(), CtxError> {
    let storage = open_storage()?;
    let record = RecordInput::new(
        "Title".to_string(),
        "Body".to_string(),
        None,
        vec![],
        None,
        None,
        None,
    )?;
    storage.insert_record(&record)?;
    let by_id = storage.get_record(&record.id)?.expect("found by id");
    assert_eq!(by_id.id, record.id);
    assert_eq!(by_id.key, None);
    assert_eq!(by_id.tags_text, "");
    assert!(storage.get_record("no.such.key")?.is_none());
    Ok(())
}

#[test]
fn new_record_has_hex_id_and_equal_timestamps() -> Result<(), CtxError> {
    let a = RecordInput::new("t".into(), "c".into(), None, vec![], None, None, None)?;
    let b = RecordInput::new("t".into(), "c".into(), None, vec![], None, None, None)?;
    assert!(a.id.starts_with("ctx_"));
    assert_eq!(a.id.len(), 36);
    assert!(a.id[4..].chars().all(|c| c.is_ascii_hexdigit() && !c.is_ascii_uppercase()));
    assert_ne!(a.id, b.id);
    assert_eq!(a.created_at, a.updated_at);
    assert!(a.created_at.contains('T'));
    Ok(())
}

#[test]
fn list_tags_counts_each_tag() -> Result<(), CtxError> {
    let storage = open_storage()?;
    insert_record(&storage, "a", "A", "x", &["ops", "db"], None)?;
    insert_record(&storage, "b", "B", "x", &["ops"], None)?;
    insert_record(&storage, "c", "C", "x", &[], None)?;
    let tags = storage.list_tags()?;
    assert_eq!(tags.len(), 2);
    assert_eq!(tags[0].tag, "db");
    assert_eq!(tags[0].count, 1);
    assert_eq!(tags[1].tag, "ops");
    assert_eq!(tags[1].count, 2);
    Ok(())
}

#[test]
fn export_then_import_round_trip() -> Result<(), CtxError> {
    let source = open_storage()?;
    insert_record(&source, "runbook.payment.failed", "支付失败排查规则", "先查日志。", &["payment", "runbook"], Some("payment-service"))?;
    insert_record(&source, "command.order.build", "order-service 构建命令", "mvn clean package -DskipTests -Ptest", &["build"], Some("order-service"))?;
    let lines = source.export_jsonl_records()?;
    assert_eq!(lines.len(), 2);
    assert!(lines.iter().all(|l| l.schema_version == JSONL_SCHEMA_VERSION));
    assert_eq!(lines[0].tags, vec!["payment".to_string(), "runbook".to_string()]);

    let target = open_storage()?;
    let summary = target.import_jsonl_records(lines.clone())?;
    assert_eq!(summary.imported, 2);
    assert_eq!(summary.skipped_duplicates, 0);
    assert_eq!(target.record_count()?, 2);
    let loaded = target.get_record("runbook.payment.failed")?.expect("imported");
    assert_eq!(loaded.title, "支付失败排查规则");
    assert_eq!(loaded.tags_text, "payment runbook");
    assert!(target
        .search_records("clean package", 10)?
        .iter()
        .any(|r| r.key.as_deref() == Some("command.order.build")));

    let again = target.import_jsonl_records(lines)?;
    assert_eq!(again.imported, 0);
    assert_eq!(again.skipped_duplicates, 2);
    assert_eq!(target.record_count()?, 2);
    Ok(())
}

#[test]
fn import_with_foreign_schema_writes_nothing() -> Result<(), CtxError> {
    let source = open_storage()?;
    insert_record(&source, "a", "A", "x", &["ops"], None)?;
    insert_record(&source, "b", "B", "y", &["ops"], None)?;
    let mut lines = source.export_jsonl_records()?;
    lines[1].schema_version = 2;
    let target = open_storage()?;
    let err = target.import_jsonl_records(lines).unwrap_err();
    assert_eq!(err, CtxError::UnsupportedSchemaVersion { found: 2, expected: 1 });
    assert_eq!(target.record_count()?, 0);
    Ok(())
}

#[test]
fn importing_nothing_imports_nothing() -> Result<(), CtxError> {
    let target = open_storage()?;
    let summary = target.import_jsonl_records(Vec::new())?;
    assert_eq!(summary.imported, 0);
    assert_eq!(summary.skipped_duplicates, 0);
    Ok(())
}

#[test]
fn new_record_timestamp_is_rfc3339_utc() -> Result<(), CtxError> {
    let r = RecordInput::new("t".into(), "c".into(), None, vec![], None, None, None)?;
    let t: Vec<char> = r.created_at.chars().collect();
    assert!(t.len() >= 20);
    for i in [0, 1, 2, 3, 5, 6, 8, 9, 11, 12, 14, 15, 17, 18] {
        assert!(t[i].is_ascii_digit());
    }
    assert_eq!((t[4], t[7], t[10], t[13], t[16]), ('-', '-', 'T', ':', ':'));
    assert!(r.created_at.ends_with('Z'));
    Ok(())
}
