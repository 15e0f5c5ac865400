//! Turning free text typed by a user into an FTS5 MATCH expression in
//! which every word is a quoted string, so that operators and special
//! characters in the input are matched literally.
use vstd::prelude::*;
use vstd::string::*;

use crate::domain::text::{all_ws, join, join_strings, split_whitespace, views, words};

verus! {

/// The characters that stand for `c` inside a quoted FTS5 string: a
/// double quote is doubled, every other character stands for itself.
pub open spec fn escaped_char(c: char) -> Seq<char> {
    if c == '"' {
        seq!['"', '"']
    } else {
        seq![c]
    }
}

/// `t` with every double quote doubled.
pub open spec fn escape_quotes(t: Seq<char>) -> Seq<char>
    decreases t.len(),
{
    if t.len() == 0 {
        seq![]
    } else {
        escaped_char(t[0]) + escape_quotes(t.drop_first())
    }
}

/// Reads the inside of a quoted FTS5 string back: a doubled double quote
/// stands for one double quote.
pub open spec fn unescape_quotes(t: Seq<char>) -> Seq<char>
    decreases t.len(),
{
    if t.len() == 0 {
        seq![]
    } else if t.len() >= 2 && t[0] == '"' && t[1] == '"' {
        seq!['"'] + unescape_quotes(t.skip(2))
    } else {
        seq![t[0]] + unescape_quotes(t.drop_first())
    }
}

/// `t` as an FTS5 string literal.
pub open spec fn quote_term(t: Seq<char>) -> Seq<char> {
    seq!['"'] + escape_quotes(t) + seq!['"']
}

/// The MATCH expression for a query: each whitespace-separated word as a
/// quoted string, the strings separated by single spaces (so every word
/// is required).
pub open spec fn fts_query(q: Seq<char>) -> Seq<char> {
    join(words(q).map_values(|w: Seq<char>| quote_term(w)), seq![' '])
}

proof fn lemma_escape_push(a: Seq<char>, c: char)
    ensures
        escape_quotes(a.push(c)) == escape_quotes(a) + escaped_char(c),
    decreases a.len(),
{
    if a.len() == 0 {
        assert(a.push(c).drop_first() =~= a);
        assert(escape_quotes(a.push(c)) =~= escape_quotes(a) + escaped_char(c));
    } else {
        lemma_escape_push(a.drop_first(), c);
        assert(a.push(c).drop_first() =~= a.drop_first().push(c));
        assert(escape_quotes(a.push(c)) =~= escape_quotes(a) + escaped_char(c));
    }
}

/// Unescaping undoes escaping: the quoted string for a word reads back as
/// that word.
pub proof fn lemma_unescape_escape(t: Seq<char>)
    ensures
        unescape_quotes(escape_quotes(t)) == t,
    decreases t.len(),
{
    if t.len() > 0 {
        lemma_unescape_escape(t.drop_first());
        let e = escape_quotes(t);
        let rest = escape_quotes(t.drop_first());
        if t[0] == '"' {
            assert(e.skip(2) =~= rest);
            assert(unescape_quotes(e) =~= seq!['"'] + t.drop_first());
        } else {
            assert(e.drop_first() =~= rest);
            assert(unescape_quotes(e) =~= seq![t[0]] + t.drop_first());
        }
        assert(seq![t[0]] + t.drop_first() =~= t);
    }
}

/// Quotes one word as an FTS5 string literal.
pub fn quote_fts_term(term: &str) -> (r: String)
    ensures
        r@ == quote_term(term@),
{
    let cs = crate::domain::text::chars_of(term);
    let mut r = String::new();
    r.push('"');
    let mut i: usize = 0;
    while i < cs.len()
        invariant
            i <= cs.len(),
            cs@ == term@,
            r@ == seq!['"'] + escape_quotes(term@.take(i as int)),
        decreases cs.len() - i,
    {
        let c = cs[i];
        proof {
            lemma_escape_push(term@.take(i as int), c);
            assert(term@.take(i + 1) =~= term@.take(i as int).push(c));
        }
        if c == '"' {
            r.push('"');
            r.push('"');
        } else {
            r.push(c);
        }
        assert(r@ =~= seq!['"'] + escape_quotes(term@.take(i + 1)));
        i += 1;
    }
    assert(term@.take(cs.len() as int) =~= term@);
    r.push('"');
    assert(r@ =~= quote_term(term@));
    r
}

/// The FTS5 MATCH expression for a search typed by a user: every
/// whitespace-separated word becomes a quoted string with embedded double
/// quotes doubled, and the strings are joined by single spaces. A query
/// of only whitespace gives the empty expression.
pub fn make_fts_query(query: &str) -> (r: String)
    ensures
        r@ == fts_query(query@),
        r@.len() == 0 <==> all_ws(query@),
{
    let terms = split_whitespace(query);
    let ghost ws = words(query@);
    let ghost qs = ws.map_values(|w: Seq<char>| quote_term(w));
    let mut quoted: Vec<String> = Vec::new();
    for k in 0..terms.len()
        invariant
            views(terms@) == ws,
            qs == ws.map_values(|w: Seq<char>| quote_term(w)),
            views(quoted@) == qs.take(k as int),
    {
        assert(terms@[k as int]@ == ws[k as int]);
        let q = quote_fts_term(terms[k].as_str());
        let ghost prev = quoted@;
        quoted.push(q);
        assert(quoted@ =~= prev.push(q));
        assert(views(quoted@) =~= views(prev).push(qs[k as int]));
        assert(qs.take(k + 1) =~= qs.take(k as int).push(qs[k as int]));
    }
    assert(qs.take(terms.len() as int) =~= qs);
    let r = join_strings(&quoted, " ");
    proof {
        reveal_strlit(" ");
        assert(" "@ =~= seq![' ']);
        if ws.len() == 0 {
            crate::domain::text::lemma_no_words_is_blank(query@);
        } else {
            assert(qs[0].len() >= 2);
            if qs.len() > 1 {
                assert(join(qs, seq![' ']).len() >= qs.last().len());
                assert(qs[qs.len() - 1].len() >= 2);
            }
        }
        if all_ws(query@) {
            crate::domain::text::lemma_blank_has_no_words(query@);
        }
    }
    r
}

} // verus!
