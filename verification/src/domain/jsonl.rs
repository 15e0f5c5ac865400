//! JSONL records: the export, import and backup format, one record per
//! line.
use vstd::prelude::*;

use crate::error::CtxError;
use crate::domain::record::RecordInput;

verus! {

/// The JSONL schema version this library writes and reads.
pub const JSONL_SCHEMA_VERSION: u32 = 1;

/// One line of a JSONL export.
#[derive(Debug, Clone, PartialEq, Eq)]
pub struct JsonlRecord {
    pub schema_version: u32,
    pub id: String,
    pub key: Option<String>,
    pub title: String,
    pub content: String,
    pub tags: Vec<String>,
    pub service: Option<String>,
    pub env: Option<String>,
    pub source: Option<String>,
    pub created_at: String,
    pub updated_at: String,
}

/// How many records an import added, and how many it skipped because the
/// store already had a record with the same id or the same non-empty key.
#[derive(Debug, Clone, Copy, PartialEq, Eq)]
pub struct ImportSummary {
    pub imported: usize,
    pub skipped_duplicates: usize,
}

impl Default for ImportSummary {
    fn default() -> (r: ImportSummary)
        ensures
            r.imported == 0,
            r.skipped_duplicates == 0,
    {
        ImportSummary { imported: 0, skipped_duplicates: 0 }
    }
}

/// The record a JSONL line stands for: the same fields, without the
/// schema version.
pub open spec fn record_of_line(l: JsonlRecord) -> RecordInput {
    RecordInput {
        id: l.id,
        key: l.key,
        title: l.title,
        content: l.content,
        tags: l.tags,
        service: l.service,
        env: l.env,
        source: l.source,
        created_at: l.created_at,
        updated_at: l.updated_at,
    }
}

impl JsonlRecord {
    /// The record this line stands for; a line of another schema version
    /// is refused.
    pub fn into_record_input(self) -> (r: Result<RecordInput, CtxError>)
        ensures
            self.schema_version == JSONL_SCHEMA_VERSION ==> r == Ok::<RecordInput, CtxError>(
                record_of_line(self),
            ),
            self.schema_version != JSONL_SCHEMA_VERSION ==> r == Err::<RecordInput, CtxError>(
                CtxError::UnsupportedSchemaVersion {
                    found: self.schema_version,
                    expected: JSONL_SCHEMA_VERSION,
                },
            ),
    {
        if self.schema_version != JSONL_SCHEMA_VERSION {
            return Err(
                CtxError::UnsupportedSchemaVersion {
                    found: self.schema_version,
                    expected: JSONL_SCHEMA_VERSION,
                },
            );
        }
        Ok(
            RecordInput {
                id: self.id,
                key: self.key,
                title: self.title,
                content: self.content,
                tags: self.tags,
                service: self.service,
                env: self.env,
                source: self.source,
                created_at: self.created_at,
                updated_at: self.updated_at,
            },
        )
    }
}

} // verus!
