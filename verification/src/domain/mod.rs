//! The core logic: records, search text, query building, tags and output.
pub mod jsonl;
pub mod ngram;
pub mod order;
pub mod output;
pub mod query;
pub mod record;
pub mod search;
pub mod tags;
pub mod text;
