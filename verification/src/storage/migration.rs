//! The schema version recorded in the database.
use vstd::prelude::*;

use crate::error::CtxError;
use crate::storage::sql;

verus! {

/// The schema version this library creates.
pub const CURRENT_SCHEMA_VERSION: i64 = 1;

/// The table of applied schema versions.
pub const MIGRATIONS_SQL: &'static str =
    "CREATE TABLE IF NOT EXISTS schema_migrations (
  version INTEGER PRIMARY KEY,
  applied_at TEXT NOT NULL DEFAULT CURRENT_TIMESTAMP
);";

/// Records the current schema version (once).
pub const RECORD_VERSION_SQL: &'static str =
    "INSERT OR IGNORE INTO schema_migrations(version) VALUES (CAST(?1 AS INTEGER))";

/// The highest recorded schema version.
pub const MAX_VERSION_SQL: &'static str = "SELECT MAX(version) FROM schema_migrations";

/// Creates the version table where it is missing and records the current
/// schema version in it.
pub fn ensure_schema_version(conn: &rusqlite::Connection) -> (r: Result<(), CtxError>)
    ensures
        r matches Err(e) ==> e is Storage,
{
    sql::execute_batch(conn, MIGRATIONS_SQL)?;
    let mut params: Vec<Option<String>> = Vec::new();
    params.push(Some(crate::domain::text::decimal_string(CURRENT_SCHEMA_VERSION as u64)));
    sql::execute(conn, RECORD_VERSION_SQL, &params)?;
    Ok(())
}

/// The highest schema version recorded, or `None` where none is.
pub fn current_schema_version(conn: &rusqlite::Connection) -> (r: Result<Option<i64>, CtxError>)
    ensures
        r matches Err(e) ==> e is Storage,
{
    let mut stmt = sql::prepare(conn, MAX_VERSION_SQL)?;
    let mut rows = sql::query(&mut stmt, &Vec::new())?;
    match sql::next_row(&mut rows)? {
        Some(row) => sql::opt_integer(row, 0),
        None => Ok(None),
    }
}

} // verus!
