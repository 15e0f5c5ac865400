//! Context hub: a local store of context records (service addresses,
//! commands, runbooks, notes) that people and AI assistants search by
//! keyword, tag or unique key, backed by SQLite full-text search.
pub mod cli;
pub mod domain;
pub mod error;
pub mod mcp;
pub mod storage;
