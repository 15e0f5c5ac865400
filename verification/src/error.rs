//! The errors the library reports, each with the message shown to users.
use vstd::prelude::*;
use vstd::string::*;

use crate::domain::text::{decimal, join, push_decimal, views};

verus! {

/// An error of the context hub.
#[derive(Debug, PartialEq, Eq)]
pub enum CtxError {
    /// A JSONL record carries a schema version this library cannot read.
    UnsupportedSchemaVersion { found: u32, expected: u32 },
    /// SQLite refused a statement or a connection; the text is its message.
    Storage(String),
    /// A stored JSON list of tags could not be read or written.
    Json(String),
    /// The current time could not be rendered.
    Time(String),
    /// An MCP tool name outside the read-only tool set.
    UnknownTool(String),
    /// No record has the given key or id.
    RecordNotFound(String),
    /// Every clipboard command failed; the failures in the order tried.
    NoClipboard(Vec<String>),
    /// Neither an explicit database path nor a home directory is known.
    NoHomeDirectory,
    /// A result column that must hold a value held NULL.
    NullColumn(usize),
}

/// An error from reading the database: SQLite refused the statement, or a
/// column that must hold a value held NULL.
pub open spec fn is_read_error(e: CtxError) -> bool {
    e is Storage || e is NullColumn
}

/// The message of an error.
pub open spec fn error_text(e: CtxError) -> Seq<char> {
    match e {
        CtxError::UnsupportedSchemaVersion { found, expected } => "unsupported JSONL schema version "@
            + decimal(found as nat) + "; expected "@ + decimal(expected as nat),
        CtxError::Storage(m) => m@,
        CtxError::Json(m) => m@,
        CtxError::Time(m) => m@,
        CtxError::UnknownTool(name) => "unknown MCP tool: "@ + name@,
        CtxError::RecordNotFound(k) => "record not found: "@ + k@,
        CtxError::NoClipboard(fails) => "no clipboard command succeeded: "@ + join(
            views(fails@),
            "; "@,
        ),
        CtxError::NoHomeDirectory => "cannot find HOME or USERPROFILE for default db path"@,
        CtxError::NullColumn(i) => "unexpected NULL in result column "@ + decimal(i as nat),
    }
}

impl CtxError {
    /// The message shown for this error.
    pub fn message(&self) -> (r: String)
        ensures
            r@ == error_text(*self),
    {
        match self {
            CtxError::UnsupportedSchemaVersion { found, expected } => {
                let mut s = String::from_str("unsupported JSONL schema version ");
                push_decimal(&mut s, *found as u64);
                s.append("; expected ");
                push_decimal(&mut s, *expected as u64);
                s
            },
            CtxError::Storage(m) => m.clone(),
            CtxError::Json(m) => m.clone(),
            CtxError::Time(m) => m.clone(),
            CtxError::UnknownTool(name) => {
                let mut s = String::from_str("unknown MCP tool: ");
                s.append(name.as_str());
                s
            },
            CtxError::RecordNotFound(k) => {
                let mut s = String::from_str("record not found: ");
                s.append(k.as_str());
                s
            },
            CtxError::NoClipboard(fails) => {
                let mut s = String::from_str("no clipboard command succeeded: ");
                let joined = crate::domain::text::join_strings(fails, "; ");
                s.append(joined.as_str());
                s
            },
            CtxError::NoHomeDirectory => String::from_str(
                "cannot find HOME or USERPROFILE for default db path",
            ),
            CtxError::NullColumn(i) => {
                let mut s = String::from_str("unexpected NULL in result column ");
                push_decimal(&mut s, *i as u64);
                s
            },
        }
    }
}

} // verus!
