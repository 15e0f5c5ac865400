use ctx_hub::domain::jsonl::ImportSummary;
use ctx_hub::storage::sqlite::{
    exists_params, import_step, key_params, match_params, service_params, tag_params,
};

fn some(s: &str) -> Option<String> {
    Some(s.to_string())
}

#[test]
fn lookup_by_key_passes_the_key() {
    assert_eq!(key_params("runbook.payment.failed"), vec![some("runbook.payment.failed")]);
}

#[test]
fn full_text_lookup_passes_the_quoted_query_and_limit() {
    assert_eq!(
        match_params("mock \"token\" status:500", 10),
        vec![some("\"mock\" \"\"\"token\"\"\" \"status:500\""), some("10")]
    );
}

#[test]
fn tag_lookup_passes_a_like_pattern() {
    assert_eq!(tag_params("runbook"), vec![some("%runbook%")]);
}

#[test]
fn service_lookup_passes_service_and_limit() {
    assert_eq!(service_params("payment-service", 50), vec![some("payment-service"), some("50")]);
}

#[test]
fn duplicate_check_ignores_empty_keys() {
    assert_eq!(
        exists_params(&"ctx_1".to_string(), &some("k")),
        vec![some("ctx_1"), some("k")]
    );
    assert_eq!(exists_params(&"ctx_1".to_string(), &some("")), vec![some("ctx_1"), None]);
    assert_eq!(exists_params(&"ctx_1".to_string(), &None), vec![some("ctx_1"), None]);
}

#[test]
fn import_skips_existing_and_inserts_new() {
    let s = ImportSummary { imported: 2, skipped_duplicates: 1 };
    assert_eq!(
        import_step(true, s),
        (false, ImportSummary { imported: 2, skipped_duplicates: 2 })
    );
    assert_eq!(
        import_step(false, s),
        (true, ImportSummary { imported: 3, skipped_duplicates: 1 })
    );
}
