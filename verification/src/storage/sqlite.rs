//! The SQLite record store.
use vstd::prelude::*;
use vstd::string::*;

use crate::error::{is_read_error, CtxError};
use crate::domain::jsonl::{record_of_line, ImportSummary, JsonlRecord, JSONL_SCHEMA_VERSION};
use crate::domain::ngram::{make_search_ngrams, search_ngrams};
use crate::domain::output::or_empty;
use crate::domain::query::{fts_query, make_fts_query};
use crate::domain::record::{is_record_for, opt_view, RecordDetail, RecordInput};
use crate::domain::search::{
    distinct_rowids, filter_by_service, filter_by_tag, first_per_rowid, merge_search_results,
    merged_results, opt_seq, wants_trigram, wants_trigram_spec, SearchResult,
};
use crate::storage::json::{json_array_text, tags_from_json, tags_to_json};
use crate::storage::{schema, sql, Storage};
use crate::domain::tags::{count_tags, has_tag_spec, is_tag_table, TagCount};
use crate::domain::text::{all_ws, decimal, decimal_string, is_blank, join, join_strings, str_equal, views};

verus! {

/// Adds a record.
pub const INSERT_SQL: &'static str =
    "INSERT INTO records (
  id, key, title, content, tags_json, tags_text,
  service, env, source, created_at, updated_at, search_ngrams
) VALUES (?1, ?2, ?3, ?4, ?5, ?6, ?7, ?8, ?9, ?10, ?11, ?12)";

/// The record whose key or id is the parameter (the search hit form).
pub const EXACT_SQL: &'static str =
    "SELECT rowid, key, title, tags_text, service, env, substr(content, 1, 160)
FROM records
WHERE key = ?1 OR id = ?1
LIMIT 1";

/// Full-text hits, best first, with a highlighted snippet from the best
/// matching column.
pub const FTS_SQL: &'static str =
    "SELECT r.rowid, r.key, r.title, r.tags_text, r.service, r.env,
  snippet(records_fts, -1, '[', ']', '...', 32)
FROM records_fts
JOIN records r ON r.rowid = records_fts.rowid
WHERE records_fts MATCH ?1
ORDER BY bm25(records_fts, 8, 10, 3, 5, 4, 2, 2, 1) ASC, r.usage_count DESC, r.updated_at DESC
LIMIT CAST(?2 AS INTEGER)";

/// Substring hits from the trigram index.
pub const TRIGRAM_SQL: &'static str =
    "SELECT r.rowid, r.key, r.title, r.tags_text, r.service, r.env, substr(r.content, 1, 160)
FROM records_trigram
JOIN records r ON r.rowid = records_trigram.rowid
WHERE records_trigram MATCH ?1
LIMIT CAST(?2 AS INTEGER)";

/// Candidate records for a tag (their tag text contains it), newest first.
pub const TAG_SQL: &'static str =
    "SELECT rowid, key, title, tags_text, service, env, substr(content, 1, 160)
FROM records
WHERE tags_text LIKE ?1
ORDER BY updated_at DESC";

/// Records of a service, newest first.
pub const SERVICE_SQL: &'static str =
    "SELECT rowid, key, title, tags_text, service, env, substr(content, 1, 160)
FROM records
WHERE service = ?1
ORDER BY updated_at DESC
LIMIT CAST(?2 AS INTEGER)";

/// One record in full by key or id.
pub const GET_SQL: &'static str =
    "SELECT id, key, title, content, tags_text, service, env, source, created_at, updated_at
FROM records
WHERE key = ?1 OR id = ?1
LIMIT 1";

/// The tag texts of all records that have tags.
pub const TAGS_SQL: &'static str = "SELECT tags_text FROM records WHERE tags_text <> ''";

/// The number of records.
pub const COUNT_SQL: &'static str = "SELECT COUNT(*) FROM records";

/// The number of records with the given id, or with the given key.
pub const EXISTS_SQL: &'static str = "SELECT COUNT(*) FROM records WHERE id = ?1 OR key = ?2";

/// The active records in the export form, oldest first.
pub const EXPORT_SQL: &'static str =
    "SELECT id, key, title, content, tags_json, service, env, source, created_at, updated_at
FROM records
WHERE status = 'active'
ORDER BY rowid";

/// Rebuilds the full-text index.
pub const REBUILD_FTS_SQL: &'static str = "INSERT INTO records_fts(records_fts) VALUES('rebuild')";

/// Rebuilds the trigram index.
pub const REBUILD_TRIGRAM_SQL: &'static str =
    "INSERT INTO records_trigram(records_trigram) VALUES('rebuild')";

/// The text a record's n-grams are taken from: title, content, tags,
/// service, env and source, separated by spaces.
pub open spec fn ngram_source(r: RecordInput) -> Seq<char> {
    r.title@ + " "@ + r.content@ + " "@ + join(views(r.tags@), " "@) + " "@ + or_empty(r.service)
        + " "@ + or_empty(r.env) + " "@ + or_empty(r.source)
}

/// The texts of optional strings.
pub open spec fn opt_views(s: Seq<Option<String>>) -> Seq<Option<Seq<char>>> {
    s.map_values(|o: Option<String>| opt_view(o))
}

/// The values stored for a new record, in the order of `INSERT_SQL`.
pub open spec fn insert_values(r: RecordInput, tags_json: Seq<char>) -> Seq<Option<Seq<char>>> {
    seq![
        Some(r.id@),
        opt_view(r.key),
        Some(r.title@),
        Some(r.content@),
        Some(tags_json),
        Some(join(views(r.tags@), " "@)),
        opt_view(r.service),
        opt_view(r.env),
        opt_view(r.source),
        Some(r.created_at@),
        Some(r.updated_at@),
        Some(search_ngrams(ngram_source(r))),
    ]
}

/// The key that makes an imported record a duplicate: a non-empty key.
pub open spec fn duplicate_key(key: Option<String>) -> Option<Seq<char>> {
    match key {
        Some(k) => if k@.len() > 0 { Some(k@) } else { None },
        None => None,
    }
}

fn opt_clone(o: &Option<String>) -> (r: Option<String>)
    ensures
        opt_view(r) == opt_view(*o),
{
    match o {
        Some(s) => Some(s.clone()),
        None => None,
    }
}

fn append_or_empty(s: &mut String, o: &Option<String>)
    ensures
        final(s)@ == old(s)@ + or_empty(*o),
{
    match o {
        Some(v) => s.append(v.as_str()),
        None => {
            assert(old(s)@ + seq![] =~= old(s)@);
        },
    }
}

/// The text the n-grams of a record are taken from.
pub fn make_ngram_source(record: &RecordInput, tags_text: &str) -> (r: String)
    requires
        tags_text@ == join(views(record.tags@), " "@),
    ensures
        r@ == ngram_source(*record),
{
    let mut s = record.title.clone();
    s.append(" ");
    s.append(record.content.as_str());
    s.append(" ");
    s.append(tags_text);
    s.append(" ");
    append_or_empty(&mut s, &record.service);
    s.append(" ");
    append_or_empty(&mut s, &record.env);
    s.append(" ");
    append_or_empty(&mut s, &record.source);
    assert(s@ =~= ngram_source(*record));
    s
}

/// The parameters of `INSERT_SQL` for a record whose tags are stored as
/// `tags_json`: the tags are also stored space-separated, and the n-grams
/// of the record's text are stored for CJK search.
pub fn insert_params(record: &RecordInput, tags_json: String) -> (p: Vec<Option<String>>)
    ensures
        opt_views(p@) == insert_values(*record, tags_json@),
{
    let tags_text = join_strings(&record.tags, " ");
    let source = make_ngram_source(record, tags_text.as_str());
    let ngrams = make_search_ngrams(source.as_str());
    let mut p: Vec<Option<String>> = Vec::new();
    p.push(Some(record.id.clone()));
    p.push(opt_clone(&record.key));
    p.push(Some(record.title.clone()));
    p.push(Some(record.content.clone()));
    p.push(Some(tags_json));
    p.push(Some(tags_text));
    p.push(opt_clone(&record.service));
    p.push(opt_clone(&record.env));
    p.push(opt_clone(&record.source));
    p.push(Some(record.created_at.clone()));
    p.push(Some(record.updated_at.clone()));
    p.push(Some(ngrams));
    assert(opt_views(p@) =~= insert_values(*record, tags_json@));
    p
}

/// The parameters of a lookup by key or id (`EXACT_SQL`, `GET_SQL`): the
/// text itself.
pub fn key_params(key_or_id: &str) -> (p: Vec<Option<String>>)
    ensures
        opt_views(p@) == seq![Some(key_or_id@)],
{
    let mut p: Vec<Option<String>> = Vec::new();
    p.push(Some(String::from_str(key_or_id)));
    assert(opt_views(p@) =~= seq![Some(key_or_id@)]);
    p
}

/// The parameters of the full-text and trigram lookups (`FTS_SQL`,
/// `TRIGRAM_SQL`): the quoted FTS query of `query`, and the limit in
/// decimal.
pub fn match_params(query: &str, limit: usize) -> (p: Vec<Option<String>>)
    ensures
        opt_views(p@) == seq![Some(fts_query(query@)), Some(decimal(limit as nat))],
{
    let mut p: Vec<Option<String>> = Vec::new();
    p.push(Some(make_fts_query(query)));
    p.push(Some(decimal_string(limit as u64)));
    assert(opt_views(p@) =~= seq![Some(fts_query(query@)), Some(decimal(limit as nat))]);
    p
}

/// The `LIKE` pattern of the tag lookup: the tag between two `%`.
pub open spec fn tag_pattern(tag: Seq<char>) -> Seq<char> {
    "%"@ + tag + "%"@
}

/// The parameters of the tag lookup (`TAG_SQL`): the pattern of any tag
/// text that contains `tag`.
pub fn tag_params(tag: &str) -> (p: Vec<Option<String>>)
    ensures
        opt_views(p@) == seq![Some(tag_pattern(tag@))],
{
    let mut pattern = String::from_str("%");
    pattern.append(tag);
    pattern.append("%");
    let mut p: Vec<Option<String>> = Vec::new();
    p.push(Some(pattern));
    assert(opt_views(p@) =~= seq![Some(tag_pattern(tag@))]);
    p
}

/// The parameters of the service lookup (`SERVICE_SQL`): the service and
/// the limit in decimal.
pub fn service_params(service: &str, limit: usize) -> (p: Vec<Option<String>>)
    ensures
        opt_views(p@) == seq![Some(service@), Some(decimal(limit as nat))],
{
    let mut p: Vec<Option<String>> = Vec::new();
    p.push(Some(String::from_str(service)));
    p.push(Some(decimal_string(limit as u64)));
    assert(opt_views(p@) =~= seq![Some(service@), Some(decimal(limit as nat))]);
    p
}

/// The parameters of the duplicate check (`EXISTS_SQL`): the id, and the
/// key where it is non-empty (NULL otherwise, which matches no row).
pub fn exists_params(id: &String, key: &Option<String>) -> (p: Vec<Option<String>>)
    ensures
        opt_views(p@) == seq![Some(id@), duplicate_key(*key)],
{
    let mut p: Vec<Option<String>> = Vec::new();
    p.push(Some(id.clone()));
    let dup = match key {
        Some(k) => if k.as_str().is_empty() { None } else { Some(k.clone()) },
        None => None,
    };
    p.push(dup);
    assert(opt_views(p@) =~= seq![Some(id@), duplicate_key(*key)]);
    p
}

/// How one imported line is handled: a line whose record is already
/// stored is skipped, any other is inserted; the summary counts it.
pub fn import_step(exists: bool, summary: ImportSummary) -> (r: (bool, ImportSummary))
    requires
        summary.imported + summary.skipped_duplicates < usize::MAX,
    ensures
        r.0 == !exists,
        exists ==> r.1 == (ImportSummary {
            imported: summary.imported,
            skipped_duplicates: (summary.skipped_duplicates + 1) as usize,
        }),
        !exists ==> r.1 == (ImportSummary {
            imported: (summary.imported + 1) as usize,
            skipped_duplicates: summary.skipped_duplicates,
        }),
{
    if exists {
        (false, ImportSummary {
            imported: summary.imported,
            skipped_duplicates: summary.skipped_duplicates + 1,
        })
    } else {
        (true, ImportSummary {
            imported: summary.imported + 1,
            skipped_duplicates: summary.skipped_duplicates,
        })
    }
}

/// The search hit in columns 0 to 6 of `row`, found by `kind`.
fn search_row(row: &rusqlite::Row<'_>, kind: &str) -> (r: Result<SearchResult, CtxError>)
    ensures
        r matches Ok(v) ==> v.match_kind@ == kind@,
        r matches Err(e) ==> is_read_error(e),
{
    let rowid = sql::integer(row, 0)?;
    let key = sql::opt_text(row, 1)?;
    let title = sql::text(row, 2)?;
    let tags_text = sql::text(row, 3)?;
    let service = sql::opt_text(row, 4)?;
    let env = sql::opt_text(row, 5)?;
    let snippet = sql::text(row, 6)?;
    Ok(
        SearchResult {
            rowid,
            key,
            title,
            tags_text,
            service,
            env,
            snippet,
            match_kind: String::from_str(kind),
        },
    )
}

/// The full record in columns 0 to 9 of `row`.
fn detail_row(row: &rusqlite::Row<'_>) -> (r: Result<RecordDetail, CtxError>)
    ensures
        r matches Err(e) ==> is_read_error(e),
{
    let id = sql::text(row, 0)?;
    let key = sql::opt_text(row, 1)?;
    let title = sql::text(row, 2)?;
    let content = sql::text(row, 3)?;
    let tags_text = sql::text(row, 4)?;
    let service = sql::opt_text(row, 5)?;
    let env = sql::opt_text(row, 6)?;
    let source = sql::opt_text(row, 7)?;
    let created_at = sql::text(row, 8)?;
    let updated_at = sql::text(row, 9)?;
    Ok(
        RecordDetail {
            id,
            key,
            title,
            content,
            tags_text,
            service,
            env,
            source,
            created_at,
            updated_at,
        },
    )
}

/// The export line in columns 0 to 9 of `row` (tags as stored JSON).
fn export_row(row: &rusqlite::Row<'_>) -> (r: Result<JsonlRecord, CtxError>)
    ensures
        r matches Ok(v) ==> v.schema_version == JSONL_SCHEMA_VERSION,
        r matches Err(e) ==> is_read_error(e) || e is Json,
{
    let id = sql::text(row, 0)?;
    let key = sql::opt_text(row, 1)?;
    let title = sql::text(row, 2)?;
    let content = sql::text(row, 3)?;
    let tags_json = sql::text(row, 4)?;
    let tags = tags_from_json(tags_json.as_str())?;
    let service = sql::opt_text(row, 5)?;
    let env = sql::opt_text(row, 6)?;
    let source = sql::opt_text(row, 7)?;
    let created_at = sql::text(row, 8)?;
    let updated_at = sql::text(row, 9)?;
    Ok(
        JsonlRecord {
            schema_version: JSONL_SCHEMA_VERSION,
            id,
            key,
            title,
            content,
            tags,
            service,
            env,
            source,
            created_at,
            updated_at,
        },
    )
}

/// Whether `d` is the record with key or id `q`.
fn record_is_for(d: &RecordDetail, q: &str) -> (r: bool)
    ensures
        r == is_record_for(*d, q@),
{
    let by_key = match &d.key {
        Some(k) => str_equal(k.as_str(), q),
        None => false,
    };
    by_key || str_equal(d.id.as_str(), q)
}

/// The result of a search: the exact, full-text and substring hits that
/// the three lookups returned, merged.
pub open spec fn search_outcome(
    query: Seq<char>,
    limit: nat,
    v: Seq<SearchResult>,
    e: Option<SearchResult>,
    f: Seq<SearchResult>,
    t: Seq<SearchResult>,
) -> bool {
    &&& v == merged_results(e, f, t, limit)
    &&& (e matches Some(x) ==> x.match_kind@ == "exact"@)
    &&& forall|i: int| 0 <= i < f.len() ==> (#[trigger] f[i]).match_kind@ == "fts"@
    &&& forall|i: int| 0 <= i < t.len() ==> (#[trigger] t[i]).match_kind@ == "trigram"@
    &&& (f.len() > 0 ==> !all_ws(query))
    &&& (t.len() > 0 ==> wants_trigram_spec(
        query,
        first_per_rowid(opt_seq(e) + f).len(),
        limit,
    ))
}

/// A record store in a SQLite database file.
pub struct SqliteStorage {
    conn: rusqlite::Connection,
    db_path: String,
}

impl SqliteStorage {
    /// The path of the database file.
    pub closed spec fn db_path_spec(&self) -> Seq<char> {
        self.db_path@
    }

    /// Opens the database file at `path` (creating the file where it is
    /// missing; its directory must exist).
    pub fn open(path: &str) -> (r: Result<SqliteStorage, CtxError>)
        ensures
            r matches Ok(s) ==> s.db_path_spec() == path@,
            r matches Err(e) ==> e is Storage,
    {
        let conn = sql::open(path)?;
        Ok(SqliteStorage { conn, db_path: String::from_str(path) })
    }

    /// The path of the database file.
    pub fn path(&self) -> (r: &str)
        ensures
            r@ == self.db_path_spec(),
    {
        self.db_path.as_str()
    }

    /// Creates the tables, indexes and trigger where they are missing.
    pub fn init(&self) -> (r: Result<(), CtxError>)
        ensures
            r matches Err(e) ==> e is Storage,
    {
        schema::init_schema(&self.conn)
    }

    /// The number of stored records (0 where the count query gives no row).
    pub fn record_count(&self) -> (r: Result<i64, CtxError>)
        ensures
            r matches Err(e) ==> e is Storage || e == CtxError::NullColumn(0),
    {
        let mut stmt = sql::prepare(&self.conn, COUNT_SQL)?;
        let mut rows = sql::query(&mut stmt, &Vec::new())?;
        match sql::next_row(&mut rows)? {
            Some(row) => sql::integer(row, 0),
            None => Ok(0),
        }
    }

    /// Rebuilds the full-text and trigram indexes.
    pub fn rebuild_index(&self) -> (r: Result<(), CtxError>)
        ensures
            r matches Err(e) ==> e is Storage,
    {
        sql::execute(&self.conn, REBUILD_FTS_SQL, &Vec::new())?;
        sql::execute(&self.conn, REBUILD_TRIGRAM_SQL, &Vec::new())?;
        Ok(())
    }

    /// Adds a record with its tags as JSON and as space-separated text,
    /// and the n-grams of its text.
    pub fn insert_record(&self, record: &RecordInput) -> (r: Result<(), CtxError>)
        ensures
            r matches Err(e) ==> e is Storage || e is Json,
    {
        let tags_json = tags_to_json(&record.tags)?;
        let params = insert_params(record, tags_json);
        sql::execute(&self.conn, INSERT_SQL, &params)?;
        Ok(())
    }

    /// Runs a query whose columns 0 to 6 form a search hit.
    fn read_search_rows(&self, sql_text: &str, params: &Vec<Option<String>>, kind: &str) -> (r: Result<
        Vec<SearchResult>,
        CtxError,
    >)
        ensures
            r matches Ok(v) ==> forall|i: int|
                0 <= i < v@.len() ==> (#[trigger] v@[i]).match_kind@ == kind@,
            r matches Err(e) ==> is_read_error(e),
    {
        let mut stmt = sql::prepare(&self.conn, sql_text)?;
        let mut rows = sql::query(&mut stmt, params)?;
        let mut out: Vec<SearchResult> = Vec::new();
        while out.len() < usize::MAX
            invariant
                forall|i: int| 0 <= i < out@.len() ==> (#[trigger] out@[i]).match_kind@ == kind@,
            decreases usize::MAX - out.len(),
        {
            match sql::next_row(&mut rows)? {
                Some(row) => {
                    let hit = search_row(row, kind)?;
                    out.push(hit);
                },
                None => {
                    break ;
                },
            }
        }
        Ok(out)
    }

    /// The record whose key or id is `query`, as an `exact` hit.
    fn search_exact_key(&self, query: &str) -> (r: Result<Option<SearchResult>, CtxError>)
        ensures
            r matches Ok(Some(v)) ==> v.match_kind@ == "exact"@,
            r matches Err(e) ==> is_read_error(e),
    {
        let params = key_params(query);
        let mut stmt = sql::prepare(&self.conn, EXACT_SQL)?;
        let mut rows = sql::query(&mut stmt, &params)?;
        match sql::next_row(&mut rows)? {
            Some(row) => {
                let hit = search_row(row, "exact")?;
                Ok(Some(hit))
            },
            None => Ok(None),
        }
    }

    /// Searches: first the record whose key or id is the query, then the
    /// full-text hits for the query's words, then (for a query of at least
    /// 3 characters, while fewer than `limit` rows were found) substring
    /// hits; each row once, at most `limit` results.
    pub fn search_records(&self, query: &str, limit: usize) -> (r: Result<Vec<SearchResult>, CtxError>)
        ensures
            r matches Ok(v) ==> {
                &&& v@.len() <= limit
                &&& distinct_rowids(v@)
                &&& exists|e: Option<SearchResult>, f: Seq<SearchResult>, t: Seq<SearchResult>|
                    #[trigger] search_outcome(query@, limit as nat, v@, e, f, t)
            },
            r matches Err(e) ==> is_read_error(e),
    {
        let exact = self.search_exact_key(query)?;
        let ghost e0 = exact;
        let fts = if is_blank(query) {
            Vec::new()
        } else {
            let params = match_params(query, limit);
            self.read_search_rows(FTS_SQL, &params, "fts")?
        };
        let ghost f0 = fts@;
        proof {
            reveal_strlit("exact");
            reveal_strlit("fts");
        }
        let found = merge_search_results(exact, fts, Vec::new(), usize::MAX);
        let ghost found0 = found@;
        assert(found0.len() == first_per_rowid(opt_seq(e0) + f0).len()) by {
            assert(opt_seq(e0) + f0 + Seq::<SearchResult>::empty() =~= opt_seq(e0) + f0);
            crate::domain::search::lemma_dedup_len(opt_seq(e0) + f0);
        }
        let trigram = if wants_trigram(query, found.len(), limit) {
            let params = match_params(query, limit);
            self.read_search_rows(TRIGRAM_SQL, &params, "trigram")?
        } else {
            Vec::new()
        };
        let ghost t0 = trigram@;
        let results = merge_search_results(None, found, trigram, limit);
        proof {
            reveal_strlit("trigram");
            crate::domain::search::lemma_merge_in_two_steps(e0, f0, t0, limit as nat);
            assert(search_outcome(query@, limit as nat, results@, e0, f0, t0));
        }
        let r: Result<Vec<SearchResult>, CtxError> = Ok(results);
        assert(search_outcome(query@, limit as nat, r->Ok_0@, e0, f0, t0));
        r
    }

    /// The record whose key or id is `key_or_id`, if any; a row is given
    /// back only where its key or id is indeed `key_or_id`.
    pub fn get_record(&self, key_or_id: &str) -> (r: Result<Option<RecordDetail>, CtxError>)
        ensures
            r matches Ok(Some(d)) ==> is_record_for(d, key_or_id@),
            r matches Err(e) ==> is_read_error(e),
    {
        let params = key_params(key_or_id);
        let mut stmt = sql::prepare(&self.conn, GET_SQL)?;
        let mut rows = sql::query(&mut stmt, &params)?;
        match sql::next_row(&mut rows)? {
            Some(row) => {
                let d = detail_row(row)?;
                if record_is_for(&d, key_or_id) {
                    Ok(Some(d))
                } else {
                    Ok(None)
                }
            },
            None => Ok(None),
        }
    }

    /// The records that carry `tag` as a whole tag, newest first, at most
    /// `limit`.
    pub fn search_by_tag(&self, tag: &str, limit: usize) -> (r: Result<Vec<SearchResult>, CtxError>)
        ensures
            r matches Ok(v) ==> {
                &&& v@.len() <= limit
                &&& forall|i: int|
                    0 <= i < v@.len() ==> has_tag_spec((#[trigger] v@[i]).tags_text@, tag@)
                &&& forall|i: int| 0 <= i < v@.len() ==> (#[trigger] v@[i]).match_kind@ == "tag"@
            },
            r matches Err(e) ==> is_read_error(e),
    {
        let params = tag_params(tag);
        let candidates = self.read_search_rows(TAG_SQL, &params, "tag")?;
        let ghost c = candidates@;
        let kept = filter_by_tag(candidates, tag, limit);
        proof {
            crate::domain::search::lemma_with_tag_has_tag(c, tag@);
            lemma_with_tag_kind(c, tag@);
            reveal_strlit("tag");
        }
        Ok(kept)
    }

    /// The records of exactly the service `service`, newest first, at most
    /// `limit`.
    pub fn search_by_service(&self, service: &str, limit: usize) -> (r: Result<Vec<SearchResult>, CtxError>)
        ensures
            r matches Ok(v) ==> {
                &&& v@.len() <= limit
                &&& forall|i: int|
                    0 <= i < v@.len() ==> opt_view((#[trigger] v@[i]).service) == Some(service@)
            },
            r matches Err(e) ==> is_read_error(e),
    {
        let params = service_params(service, limit);
        let candidates = self.read_search_rows(SERVICE_SQL, &params, "service")?;
        let ghost c = candidates@;
        let kept = filter_by_service(candidates, service, limit);
        proof {
            crate::domain::search::lemma_with_service_has_service(c, service@);
        }
        Ok(kept)
    }

    /// The known tags with their number of occurrences, ascending.
    pub fn list_tags(&self) -> (r: Result<Vec<TagCount>, CtxError>)
        ensures
            r matches Ok(v) ==> exists|rows: Seq<Seq<char>>| #[trigger]
                crate::domain::tags::counts_tags_of(v@, rows),
            r matches Err(e) ==> is_read_error(e),
    {
        let mut stmt = sql::prepare(&self.conn, TAGS_SQL)?;
        let mut rows = sql::query(&mut stmt, &Vec::new())?;
        let mut texts: Vec<String> = Vec::new();
        while texts.len() < usize::MAX
            decreases usize::MAX - texts.len(),
        {
            match sql::next_row(&mut rows)? {
                Some(row) => {
                    let t = sql::text(row, 0)?;
                    texts.push(t);
                },
                None => {
                    break ;
                },
            }
        }
        let table = count_tags(&texts);
        assert(crate::domain::tags::counts_tags_of(table@, views(texts@)));
        let r: Result<Vec<TagCount>, CtxError> = Ok(table);
        assert(crate::domain::tags::counts_tags_of(r->Ok_0@, views(texts@)));
        r
    }

    /// Whether a record with id `id`, or with the non-empty key `key`, is
    /// stored.
    fn record_exists(&self, id: &String, key: &Option<String>) -> (r: Result<bool, CtxError>)
        ensures
            r matches Err(e) ==> is_read_error(e),
    {
        let params = exists_params(id, key);
        let mut stmt = sql::prepare(&self.conn, EXISTS_SQL)?;
        let mut rows = sql::query(&mut stmt, &params)?;
        match sql::next_row(&mut rows)? {
            Some(row) => {
                let n = sql::integer(row, 0)?;
                Ok(n > 0)
            },
            None => Ok(false),
        }
    }

    /// The active records as JSONL lines, oldest first.
    pub fn export_jsonl_records(&self) -> (r: Result<Vec<JsonlRecord>, CtxError>)
        ensures
            r matches Ok(v) ==> forall|i: int|
                0 <= i < v@.len() ==> (#[trigger] v@[i]).schema_version == JSONL_SCHEMA_VERSION,
            r matches Err(e) ==> is_read_error(e) || e is Json,
    {
        let mut stmt = sql::prepare(&self.conn, EXPORT_SQL)?;
        let mut rows = sql::query(&mut stmt, &Vec::new())?;
        let mut out: Vec<JsonlRecord> = Vec::new();
        while out.len() < usize::MAX
            invariant
                forall|i: int|
                    0 <= i < out@.len() ==> (#[trigger] out@[i]).schema_version == JSONL_SCHEMA_VERSION,
            decreases usize::MAX - out.len(),
        {
            match sql::next_row(&mut rows)? {
                Some(row) => {
                    let line = export_row(row)?;
                    out.push(line);
                },
                None => {
                    break ;
                },
            }
        }
        Ok(out)
    }

    /// Imports JSONL lines: nothing is written when a line has another
    /// schema version; otherwise each record whose id, or non-empty key, is
    /// already stored is skipped, and every other record is added. The
    /// summary counts both, and together they are all the lines.
    pub fn import_jsonl_records(&self, records: Vec<JsonlRecord>) -> (r: Result<ImportSummary, CtxError>)
        ensures
            records@.len() == 0 ==> r == Ok::<ImportSummary, CtxError>(
                ImportSummary { imported: 0, skipped_duplicates: 0 },
            ),
            r matches Ok(s) ==> s.imported + s.skipped_duplicates == records@.len(),
            r is Ok ==> forall|i: int|
                0 <= i < records@.len() ==> (#[trigger] records@[i]).schema_version
                    == JSONL_SCHEMA_VERSION,
            (exists|i: int|
                0 <= i < records@.len() && (#[trigger] records@[i]).schema_version
                    != JSONL_SCHEMA_VERSION) ==> (r matches Err(
                CtxError::UnsupportedSchemaVersion { found, expected },
            ) && found != JSONL_SCHEMA_VERSION && expected == JSONL_SCHEMA_VERSION),
            r matches Err(CtxError::UnsupportedSchemaVersion { .. }) ==> exists|i: int|
                0 <= i < records@.len() && (#[trigger] records@[i]).schema_version
                    != JSONL_SCHEMA_VERSION,
            r matches Err(e) ==> e is UnsupportedSchemaVersion || is_read_error(e) || e is Json,
    {
        let ghost lines = records@;
        let mut inputs: Vec<RecordInput> = Vec::new();
        for line in it: records
            invariant
                it.seq() == lines,
                inputs@.len() == it.index(),
                forall|i: int| 0 <= i < it.index() ==> (#[trigger] lines[i]).schema_version
                    == JSONL_SCHEMA_VERSION,
        {
            let ghost k = it.index();
            assert(lines[k as int] == line);
            match line.into_record_input() {
                Ok(input) => inputs.push(input),
                Err(e) => {
                    assert(lines[k as int].schema_version != JSONL_SCHEMA_VERSION);
                    return Err(e);
                },
            }
        }
        let mut summary = ImportSummary { imported: 0, skipped_duplicates: 0 };
        let mut i: usize = 0;
        while i < inputs.len()
            invariant
                i <= inputs.len(),
                inputs@.len() == lines.len(),
                lines == records@,
                forall|j: int| 0 <= j < lines.len() ==> (#[trigger] lines[j]).schema_version
                    == JSONL_SCHEMA_VERSION,
                summary.imported + summary.skipped_duplicates == i,
            decreases inputs.len() - i,
        {
            let input = &inputs[i];
            let exists = self.record_exists(&input.id, &input.key)?;
            let (insert, next) = import_step(exists, summary);
            if insert {
                self.insert_record(input)?;
            }
            summary = next;
            i += 1;
        }
        Ok(summary)
    }
}

proof fn lemma_with_tag_kind(s: Seq<SearchResult>, tag: Seq<char>)
    requires
        forall|i: int| 0 <= i < s.len() ==> (#[trigger] s[i]).match_kind@ == "tag"@,
    ensures
        forall|i: int|
            0 <= i < crate::domain::search::with_tag(s, tag).len() ==> (
            #[trigger] crate::domain::search::with_tag(s, tag)[i]).match_kind@ == "tag"@,
    decreases s.len(),
{
    if s.len() > 0 {
        lemma_with_tag_kind(s.drop_last(), tag);
    }
}

impl Storage for SqliteStorage {
    open spec fn search_answer(&self, query: Seq<char>, limit: nat, v: Seq<SearchResult>) -> bool {
        exists|e: Option<SearchResult>, f: Seq<SearchResult>, t: Seq<SearchResult>|
            #[trigger] search_outcome(query, limit, v, e, f, t)
    }

    open spec fn record_answer(&self, key_or_id: Seq<char>, d: Option<RecordDetail>) -> bool {
        d matches Some(x) ==> is_record_for(x, key_or_id)
    }

    open spec fn tag_answer(&self, tag: Seq<char>, limit: nat, v: Seq<SearchResult>) -> bool {
        forall|i: int| 0 <= i < v.len() ==> (#[trigger] v[i]).match_kind@ == "tag"@
    }

    open spec fn service_answer(&self, service: Seq<char>, limit: nat, v: Seq<SearchResult>) -> bool {
        forall|i: int| 0 <= i < v.len() ==> opt_view((#[trigger] v[i]).service) == Some(service)
    }

    open spec fn tags_answer(&self, v: Seq<TagCount>) -> bool {
        exists|rows: Seq<Seq<char>>| #[trigger] crate::domain::tags::counts_tags_of(v, rows)
    }

    fn path(&self) -> (r: &str)
        ensures
            r@ == self.db_path_spec(),
    {
        SqliteStorage::path(self)
    }

    fn init(&self) -> (r: Result<(), CtxError>)
        ensures
            r matches Err(e) ==> e is Storage,
    {
        SqliteStorage::init(self)
    }

    fn record_count(&self) -> (r: Result<i64, CtxError>)
        ensures
            r matches Err(e) ==> e is Storage || e == CtxError::NullColumn(0),
    {
        SqliteStorage::record_count(self)
    }

    fn rebuild_index(&self) -> (r: Result<(), CtxError>)
        ensures
            r matches Err(e) ==> e is Storage,
    {
        SqliteStorage::rebuild_index(self)
    }

    fn insert_record(&self, record: &RecordInput) -> (r: Result<(), CtxError>)
        ensures
            r matches Err(e) ==> e is Storage || e is Json,
    {
        SqliteStorage::insert_record(self, record)
    }

    fn search_records(&self, query: &str, limit: usize) -> (r: Result<Vec<SearchResult>, CtxError>)
        ensures
            r matches Ok(v) ==> exists|e: Option<SearchResult>, f: Seq<SearchResult>, t: Seq<SearchResult>|
                #[trigger] search_outcome(query@, limit as nat, v@, e, f, t),
            r matches Err(e) ==> is_read_error(e),
    {
        SqliteStorage::search_records(self, query, limit)
    }

    fn get_record(&self, key_or_id: &str) -> (r: Result<Option<RecordDetail>, CtxError>)
        ensures
            r matches Err(e) ==> is_read_error(e),
    {
        SqliteStorage::get_record(self, key_or_id)
    }

    fn search_by_tag(&self, tag: &str, limit: usize) -> (r: Result<Vec<SearchResult>, CtxError>)
        ensures
            r matches Ok(v) ==> forall|i: int| 0 <= i < v@.len() ==> (#[trigger] v@[i]).match_kind@ == "tag"@,
            r matches Err(e) ==> is_read_error(e),
    {
        SqliteStorage::search_by_tag(self, tag, limit)
    }

    fn search_by_service(&self, service: &str, limit: usize) -> (r: Result<Vec<SearchResult>, CtxError>)
        ensures
            r matches Err(e) ==> is_read_error(e),
    {
        SqliteStorage::search_by_service(self, service, limit)
    }

    fn list_tags(&self) -> (r: Result<Vec<TagCount>, CtxError>)
        ensures
            r matches Ok(v) ==> exists|rows: Seq<Seq<char>>| #[trigger]
                crate::domain::tags::counts_tags_of(v@, rows),
            r matches Err(e) ==> is_read_error(e),
    {
        let r = SqliteStorage::list_tags(self);
        proof {
            if r is Ok {
                let v = r->Ok_0;
                let rows = choose|rows: Seq<Seq<char>>| #[trigger] crate::domain::tags::counts_tags_of(v@, rows);
            }
        }
        r
    }
}

} // verus!
