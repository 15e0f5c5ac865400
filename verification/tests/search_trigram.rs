use ctx_hub::domain::record::RecordInput;
use ctx_hub::error::CtxError;
use ctx_hub::storage::sqlite::SqliteStorage;

fn open_storage() -> Result<SqliteStorage, CtxError> {
    let storage = SqliteStorage::open(":memory:")?;
    storage.init()?;
    Ok(storage)
}

fn insert_record(
    storage: &SqliteStorage,
    key: &str,
    title: &str,
    content: &str,
    tags: &[&str],
    service: Option<&str>,
) -> Result<(), CtxError> {
    let record = RecordInput::new(
        title.to_string(),
        content.to_string(),
        Some(key.to_string()),
        tags.iter().map(|tag| (*tag).to_string()).collect(),
        service.map(str::to_string),
        Some("test".to_string()),
        Some("search test".to_string()),
    )?;
    storage.insert_record(&record)
}

#[test]
fn trigram_search_finds_command_fragments_inside_tokens() -> Result<(), CtxError> {
    let storage = open_storage()?;

    insert_record(
        &storage,
        "command.order.build",
        "Order service build",
        "mvn clean package -DskipTests -Ptest",
        &["build"],
        Some("order-service"),
    )?;

    let results = storage.search_records("skipTes", 10)?;
    let item = results
        .iter()
        .find(|item| item.key.as_deref() == Some("command.order.build"))
        .expect("expected command fragment search to find build command");

    assert_eq!(item.match_kind, "trigram");

    Ok(())
}

#[test]
fn trigram_search_finds_path_fragments() -> Result<(), CtxError> {
    let storage = open_storage()?;

    insert_record(
        &storage,
        "runbook.order.api",
        "Order API runbook",
        "Check POST /internal/api/order/create when the order callback fails.",
        &["order", "runbook"],
        Some("order-service"),
    )?;

    let results = storage.search_records("api/order", 10)?;

    assert!(results
        .iter()
        .any(|item| item.key.as_deref() == Some("runbook.order.api")));

    Ok(())
}

#[test]
fn two_character_fragments_get_no_substring_search() -> Result<(), CtxError> {
    let storage = open_storage()?;
    insert_record(
        &storage,
        "command.order.build",
        "Order service build",
        "mvn clean package -DskipTests -Ptest",
        &["build"],
        Some("order-service"),
    )?;
    // "kT" is inside "-DskipTests" but is shorter than a trigram.
    let results = storage.search_records("kT", 10)?;
    assert!(results.is_empty());
    Ok(())
}
