//! The text shown to people: a record in full, a list of search hits, the
//! tag table, and the field of a record that is copied.
use vstd::prelude::*;
use vstd::string::*;

use crate::domain::record::RecordDetail;
use crate::domain::search::SearchResult;
use crate::domain::tags::TagCount;
use crate::domain::text::{decimal, push_decimal};

verus! {

/// The text of an optional string, empty where there is none.
pub open spec fn or_empty(o: Option<String>) -> Seq<char> {
    match o {
        Some(s) => s@,
        None => seq![],
    }
}

/// A record in full: its fields one per line, a blank line, the content.
pub open spec fn record_detail_text(r: RecordDetail) -> Seq<char> {
    "id: "@ + r.id@ + "\nkey: "@ + or_empty(r.key) + "\ntitle: "@ + r.title@ + "\ntags: "@
        + r.tags_text@ + "\nservice: "@ + or_empty(r.service) + "\nenv: "@ + or_empty(r.env)
        + "\nsource: "@ + or_empty(r.source) + "\ncreated_at: "@ + r.created_at@
        + "\nupdated_at: "@ + r.updated_at@ + "\n\n"@ + r.content@
}

/// `t` with every line feed replaced by a space.
pub open spec fn newlines_to_spaces(t: Seq<char>) -> Seq<char> {
    t.map_values(|c: char| if c == '\n' { ' ' } else { c })
}

/// A labelled line for an optional field, or nothing where it is absent.
pub open spec fn optional_line(label: Seq<char>, o: Option<String>) -> Seq<char> {
    match o {
        Some(s) => label + s@ + "\n"@,
        None => seq![],
    }
}

/// The key shown for a hit, or `<no-key>`.
pub open spec fn key_label(o: Option<String>) -> Seq<char> {
    match o {
        Some(s) => s@,
        None => "<no-key>"@,
    }
}

/// How a record is named to people: its key, or its id where it has none.
pub open spec fn key_label_or_id(r: RecordDetail) -> Seq<char> {
    match r.key {
        Some(k) => k@,
        None => r.id@,
    }
}

/// The lines shown for the `n`-th hit (counting from 1), with a blank
/// line after them.
pub open spec fn result_block(n: nat, r: SearchResult) -> Seq<char> {
    block_head(n, r) + optional_line("service: "@, r.service) + optional_line("env: "@, r.env)
        + block_tail(r)
}

/// The number and key, title and tags lines of a hit.
pub open spec fn block_head(n: nat, r: SearchResult) -> Seq<char> {
    "["@ + decimal(n) + "] "@ + key_label(r.key) + "\n"@ + "title: "@ + r.title@ + "\n"@
        + "tags: "@ + r.tags_text@ + "\n"@
}

/// The match kind and snippet lines of a hit, and the blank line after it.
pub open spec fn block_tail(r: SearchResult) -> Seq<char> {
    "source: "@ + r.match_kind@ + "\n"@ + "snippet: "@ + newlines_to_spaces(r.snippet@) + "\n"@
        + "\n"@
}

/// The blocks of the first `n` hits.
pub open spec fn result_blocks(rs: Seq<SearchResult>, n: nat) -> Seq<char>
    decreases n,
{
    if n == 0 || n > rs.len() {
        seq![]
    } else {
        result_blocks(rs, (n - 1) as nat) + result_block(n, rs[n - 1])
    }
}

/// The text shown for a list of hits: `no results` when it is empty.
pub open spec fn results_text(rs: Seq<SearchResult>) -> Seq<char> {
    if rs.len() == 0 {
        "no results\n"@
    } else {
        result_blocks(rs, rs.len())
    }
}

/// One line per tag: the tag, a tab, its count.
pub open spec fn tag_lines(v: Seq<TagCount>, n: nat) -> Seq<char>
    decreases n,
{
    if n == 0 || n > v.len() {
        seq![]
    } else {
        tag_lines(v, (n - 1) as nat) + v[n - 1].tag@ + "\t"@ + decimal(v[n - 1].count as nat) + "\n"@
    }
}

fn append_opt(s: &mut String, o: &Option<String>)
    ensures
        final(s)@ == old(s)@ + or_empty(*o),
{
    match o {
        Some(v) => s.append(v.as_str()),
        None => {
            assert(old(s)@ + seq![] =~= old(s)@);
        },
    }
}

/// The full text of a record: `id`, `key`, `title`, `tags`, `service`,
/// `env`, `source`, `created_at` and `updated_at` lines (absent values
/// empty), a blank line, then the content.
pub fn format_record_detail(record: &RecordDetail) -> (r: String)
    ensures
        r@ == record_detail_text(*record),
{
    let mut s = String::from_str("id: ");
    s.append(record.id.as_str());
    s.append("\nkey: ");
    append_opt(&mut s, &record.key);
    s.append("\ntitle: ");
    s.append(record.title.as_str());
    s.append("\ntags: ");
    s.append(record.tags_text.as_str());
    s.append("\nservice: ");
    append_opt(&mut s, &record.service);
    s.append("\nenv: ");
    append_opt(&mut s, &record.env);
    s.append("\nsource: ");
    append_opt(&mut s, &record.source);
    s.append("\ncreated_at: ");
    s.append(record.created_at.as_str());
    s.append("\nupdated_at: ");
    s.append(record.updated_at.as_str());
    s.append("\n\n");
    s.append(record.content.as_str());
    s
}

fn append_newlines_to_spaces(s: &mut String, t: &str)
    ensures
        final(s)@ == old(s)@ + newlines_to_spaces(t@),
{
    let cs = crate::domain::text::chars_of(t);
    let mut i: usize = 0;
    while i < cs.len()
        invariant
            i <= cs.len(),
            cs@ == t@,
            s@ == old(s)@ + newlines_to_spaces(t@.take(i as int)),
        decreases cs.len() - i,
    {
        let c = cs[i];
        if c == '\n' {
            s.push(' ');
        } else {
            s.push(c);
        }
        assert(newlines_to_spaces(t@.take(i + 1)) =~= newlines_to_spaces(t@.take(i as int)).push(
            if c == '\n' { ' ' } else { c },
        ));
        i += 1;
    }
    assert(t@.take(cs.len() as int) =~= t@);
}

fn append_block_head(s: &mut String, n: u64, r: &SearchResult)
    ensures
        final(s)@ == old(s)@ + block_head(n as nat, *r),
{
    s.append("[");
    push_decimal(s, n);
    s.append("] ");
    match &r.key {
        Some(k) => s.append(k.as_str()),
        None => s.append("<no-key>"),
    }
    s.append("\n");
    s.append("title: ");
    s.append(r.title.as_str());
    s.append("\n");
    s.append("tags: ");
    s.append(r.tags_text.as_str());
    s.append("\n");
    assert(final(s)@ =~= old(s)@ + block_head(n as nat, *r));
}

fn append_optional_line(s: &mut String, label: &str, o: &Option<String>)
    ensures
        final(s)@ == old(s)@ + optional_line(label@, *o),
{
    match o {
        Some(v) => {
            s.append(label);
            s.append(v.as_str());
            s.append("\n");
            assert(final(s)@ =~= old(s)@ + optional_line(label@, *o));
        },
        None => {
            assert(old(s)@ + seq![] =~= old(s)@);
        },
    }
}

fn append_block_tail(s: &mut String, r: &SearchResult)
    ensures
        final(s)@ == old(s)@ + block_tail(*r),
{
    s.append("source: ");
    s.append(r.match_kind.as_str());
    s.append("\n");
    s.append("snippet: ");
    append_newlines_to_spaces(s, r.snippet.as_str());
    s.append("\n");
    s.append("\n");
    assert(final(s)@ =~= old(s)@ + block_tail(*r));
}

fn append_result_block(s: &mut String, n: u64, r: &SearchResult)
    ensures
        final(s)@ == old(s)@ + result_block(n as nat, *r),
{
    append_block_head(s, n, r);
    append_optional_line(s, "service: ", &r.service);
    append_optional_line(s, "env: ", &r.env);
    append_block_tail(s, r);
    assert(final(s)@ =~= old(s)@ + result_block(n as nat, *r));
}

/// The text shown for search hits: `no results` for none; otherwise for
/// each hit, numbered from 1, its key (or `<no-key>`), title, tags,
/// service and env where present, how it matched, and the snippet with
/// line feeds turned into spaces, then a blank line.
pub fn format_results(results: &Vec<SearchResult>) -> (r: String)
    ensures
        r@ == results_text(results@),
{
    if results.len() == 0 {
        return String::from_str("no results\n");
    }
    let mut s = String::new();
    let mut i: usize = 0;
    while i < results.len()
        invariant
            i <= results.len(),
            s@ == result_blocks(results@, i as nat),
        decreases results.len() - i,
    {
        append_result_block(&mut s, (i + 1) as u64, &results[i]);
        i += 1;
    }
    s
}

/// The tag table as text: one line per tag with the tag, a tab and its count.
pub fn format_tags(tags: &Vec<TagCount>) -> (r: String)
    ensures
        r@ == tag_lines(tags@, tags@.len()),
{
    let mut s = String::new();
    let mut i: usize = 0;
    while i < tags.len()
        invariant
            i <= tags.len(),
            s@ == tag_lines(tags@, i as nat),
        decreases tags.len() - i,
    {
        s.append(tags[i].tag.as_str());
        s.append("\t");
        push_decimal(&mut s, tags[i].count as u64);
        s.append("\n");
        i += 1;
    }
    s
}

} // verus!
