//! The record store: the `Storage` interface and its SQLite implementation.
pub mod json;
pub mod migration;
pub mod schema;
pub mod sql;
pub mod sqlite;

use vstd::prelude::*;

use crate::error::CtxError;
use crate::domain::record::{is_record_for, opt_view, RecordDetail, RecordInput};
use crate::domain::search::{distinct_rowids, SearchResult};
use crate::domain::tags::{has_tag_spec, is_tag_table, TagCount};

verus! {

/// A store of context records. Each lookup's answer is described by a
/// predicate of the store, so that code built on the trait can say that
/// it hands on exactly what the store answered.
pub trait Storage {
    /// `v` is an answer the store may give to a search for `query` with
    /// `limit`.
    spec fn search_answer(&self, query: Seq<char>, limit: nat, v: Seq<SearchResult>) -> bool;

    /// `d` is an answer the store may give to a lookup of `key_or_id`.
    spec fn record_answer(&self, key_or_id: Seq<char>, d: Option<RecordDetail>) -> bool;

    /// `v` is an answer the store may give to a tag lookup.
    spec fn tag_answer(&self, tag: Seq<char>, limit: nat, v: Seq<SearchResult>) -> bool;

    /// `v` is an answer the store may give to a service lookup.
    spec fn service_answer(&self, service: Seq<char>, limit: nat, v: Seq<SearchResult>) -> bool;

    /// `v` is a tag table the store may give.
    spec fn tags_answer(&self, v: Seq<TagCount>) -> bool;

    /// Where the store lives.
    fn path(&self) -> &str;

    /// Creates the schema where it is missing.
    fn init(&self) -> Result<(), CtxError>;

    /// The number of stored records.
    fn record_count(&self) -> Result<i64, CtxError>;

    /// Rebuilds the search indexes from the stored records.
    fn rebuild_index(&self) -> Result<(), CtxError>;

    /// Adds a record.
    fn insert_record(&self, record: &RecordInput) -> Result<(), CtxError>;

    /// Searches by key, id and text; at most `limit` hits, no row twice.
    fn search_records(&self, query: &str, limit: usize) -> (r: Result<Vec<SearchResult>, CtxError>)
        ensures
            r matches Ok(v) ==> v@.len() <= limit && distinct_rowids(v@) && self.search_answer(
                query@,
                limit as nat,
                v@,
            ),
    ;

    /// The record with key or id `key_or_id`, if any.
    fn get_record(&self, key_or_id: &str) -> (r: Result<Option<RecordDetail>, CtxError>)
        ensures
            r matches Ok(d) ==> self.record_answer(key_or_id@, d) && (d matches Some(x)
                ==> is_record_for(x, key_or_id@)),
    ;

    /// Records carrying the exact tag `tag`; at most `limit`.
    fn search_by_tag(&self, tag: &str, limit: usize) -> (r: Result<Vec<SearchResult>, CtxError>)
        ensures
            r matches Ok(v) ==> v@.len() <= limit && self.tag_answer(tag@, limit as nat, v@)
                && forall|i: int|
                0 <= i < v@.len() ==> has_tag_spec((#[trigger] v@[i]).tags_text@, tag@),
    ;

    /// Records of exactly the service `service`; at most `limit`.
    fn search_by_service(&self, service: &str, limit: usize) -> (r: Result<Vec<SearchResult>, CtxError>)
        ensures
            r matches Ok(v) ==> v@.len() <= limit && self.service_answer(service@, limit as nat, v@)
                && forall|i: int|
                0 <= i < v@.len() ==> opt_view((#[trigger] v@[i]).service) == Some(service@),
    ;

    /// The known tags with their number of occurrences, ascending.
    fn list_tags(&self) -> (r: Result<Vec<TagCount>, CtxError>)
        ensures
            r matches Ok(v) ==> is_tag_table(v@) && self.tags_answer(v@),
    ;
}

} // verus!
