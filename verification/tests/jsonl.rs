use ctx_hub::domain::jsonl::{ImportSummary, JsonlRecord, JSONL_SCHEMA_VERSION};
use ctx_hub::error::CtxError;

fn sample_record() -> JsonlRecord {
    JsonlRecord {
        schema_version: JSONL_SCHEMA_VERSION,
        id: "ctx_test".to_string(),
        key: Some("runbook.payment.failed".to_string()),
        title: "支付失败排查规则".to_string(),
        content: "先查询 payment_callback_log。".to_string(),
        tags: vec!["payment".to_string(), "runbook".to_string()],
        service: Some("payment-service".to_string()),
        env: Some("test".to_string()),
        source: Some("unit test".to_string()),
        created_at: "2026-06-23T00:00:00Z".to_string(),
        updated_at: "2026-06-23T00:00:00Z".to_string(),
    }
}

#[test]
fn rejects_unsupported_schema_version() {
    let mut record = sample_record();
    record.schema_version = JSONL_SCHEMA_VERSION + 1;

    let err = record
        .into_record_input()
        .expect_err("unsupported schema should fail");
    assert!(err.message().contains("unsupported JSONL schema version"));
}

#[test]
fn unsupported_schema_error_names_both_versions() {
    let mut record = sample_record();
    record.schema_version = 7;
    let err = record.into_record_input().unwrap_err();
    assert_eq!(
        err,
        CtxError::UnsupportedSchemaVersion { found: 7, expected: 1 }
    );
    assert_eq!(err.message(), "unsupported JSONL schema version 7; expected 1");
}

#[test]
fn current_schema_line_becomes_the_same_record() {
    let line = sample_record();
    let input = line.clone().into_record_input().unwrap();
    assert_eq!(input.id, line.id);
    assert_eq!(input.key, line.key);
    assert_eq!(input.title, line.title);
    assert_eq!(input.content, line.content);
    assert_eq!(input.tags, line.tags);
    assert_eq!(input.service, line.service);
    assert_eq!(input.env, line.env);
    assert_eq!(input.source, line.source);
    assert_eq!(input.created_at, line.created_at);
    assert_eq!(input.updated_at, line.updated_at);
}

#[test]
fn import_summary_starts_at_zero() {
    let s = ImportSummary::default();
    assert_eq!(s.imported, 0);
    assert_eq!(s.skipped_duplicates, 0);
}
