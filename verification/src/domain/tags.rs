//! Tags: exact tag membership of a record's tag text, and the table of
//! known tags with the number of times each occurs.
use vstd::prelude::*;

use crate::domain::order::{lemma_lex_order, lemma_lex_transitive, lex_less, lex_lt, strictly_sorted, chars_equal};
use crate::domain::text::{chars_of, split_whitespace, views, words};

verus! {

/// A tag and the number of times it occurs.
#[derive(Debug)]
pub struct TagCount {
    pub tag: String,
    pub count: usize,
}

/// The number of items of `ws` equal to `t`.
pub open spec fn count_in(ws: Seq<Seq<char>>, t: Seq<char>) -> nat
    decreases ws.len(),
{
    if ws.len() == 0 {
        0
    } else {
        count_in(ws.drop_last(), t) + if ws.last() == t {
            1nat
        } else {
            0nat
        }
    }
}

/// The number of times `t` occurs as a whitespace-separated word over all
/// tag texts `rows`.
pub open spec fn tag_occurrences(rows: Seq<Seq<char>>, t: Seq<char>) -> nat
    decreases rows.len(),
{
    if rows.len() == 0 {
        0
    } else {
        tag_occurrences(rows.drop_last(), t) + count_in(words(rows.last()), t)
    }
}

/// `n`, or the largest `usize` where `n` exceeds it.
pub open spec fn saturate(n: nat) -> nat {
    if n > usize::MAX {
        usize::MAX as nat
    } else {
        n
    }
}

/// The tags of a table, in order.
pub open spec fn table_tags(v: Seq<TagCount>) -> Seq<Seq<char>> {
    v.map_values(|e: TagCount| e.tag@)
}

/// A position of `t` in the table, where there is one.
pub open spec fn index_of(v: Seq<TagCount>, t: Seq<char>) -> int {
    choose|i: int| 0 <= i < v.len() && (#[trigger] v[i]).tag@ == t
}

/// The count a table gives for `t`, or 0 where `t` is not in it.
pub open spec fn count_of(v: Seq<TagCount>, t: Seq<char>) -> nat {
    if exists|i: int| 0 <= i < v.len() && (#[trigger] v[i]).tag@ == t {
        v[index_of(v, t)].count as nat
    } else {
        0
    }
}

/// A well-formed tag table: tags strictly ascending, every count at least 1.
pub open spec fn is_tag_table(v: Seq<TagCount>) -> bool {
    &&& strictly_sorted(table_tags(v))
    &&& forall|i: int| 0 <= i < v.len() ==> (#[trigger] v[i]).count >= 1
}

/// The table of `rows`: exactly the tags that occur, each with its number
/// of occurrences (saturating at `usize::MAX`), in ascending order.
pub open spec fn counts_tags_of(v: Seq<TagCount>, rows: Seq<Seq<char>>) -> bool {
    &&& is_tag_table(v)
    &&& forall|t: Seq<char>| #[trigger] count_of(v, t) == saturate(tag_occurrences(rows, t))
}

/// `t` is one of the whitespace-separated words of `tags_text`.
pub open spec fn has_tag_spec(tags_text: Seq<char>, t: Seq<char>) -> bool {
    words(tags_text).contains(t)
}

proof fn lemma_count_of_at(v: Seq<TagCount>, i: int)
    requires
        strictly_sorted(table_tags(v)),
        0 <= i < v.len(),
    ensures
        count_of(v, v[i].tag@) == v[i].count,
{
    let t = v[i].tag@;
    assert(0 <= i < v.len() && v[i].tag@ == t);
    let j = index_of(v, t);
    if j != i {
        let tt = table_tags(v);
        assert(tt[i] == t && tt[j] == t);
        lemma_lex_order(t, t);
        if i < j {
            assert(lex_lt(tt[i], tt[j]));
        } else {
            assert(lex_lt(tt[j], tt[i]));
        }
    }
}

proof fn lemma_count_of_absent(v: Seq<TagCount>, t: Seq<char>)
    requires
        forall|i: int| 0 <= i < v.len() ==> (#[trigger] v[i]).tag@ != t,
    ensures
        count_of(v, t) == 0,
{
}

/// Whether `t` is one of the words of `tags_text`; compares whole words
/// only, so `run` is not a tag of `runbook`.
pub fn has_tag(tags_text: &str, t: &str) -> (r: bool)
    ensures
        r == has_tag_spec(tags_text@, t@),
{
    let ws = split_whitespace(tags_text);
    let tc = chars_of(t);
    let ghost wv = views(ws@);
    let mut i: usize = 0;
    while i < ws.len()
        invariant
            i <= ws.len(),
            wv == views(ws@),
            wv == words(tags_text@),
            tc@ == t@,
            forall|k: int| 0 <= k < i ==> wv[k] != t@,
        decreases ws.len() - i,
    {
        let wc = chars_of(ws[i].as_str());
        assert(wv[i as int] == ws@[i as int]@);
        if chars_equal(&wc, &tc) {
            assert(wv.contains(t@)) by {
                assert(wv[i as int] == t@);
            }
            return true;
        }
        i += 1;
    }
    false
}

/// Adds one occurrence of `w` to the table.
fn add_tag(table: &mut Vec<TagCount>, w: String)
    requires
        is_tag_table(old(table)@),
    ensures
        is_tag_table(final(table)@),
        forall|t: Seq<char>| #[trigger] count_of(final(table)@, t) == if t == w@ {
            let c = count_of(old(table)@, t);
            if c < usize::MAX { c + 1 } else { c }
        } else {
            count_of(old(table)@, t)
        },
{
    let ghost old_v = table@;
    let ghost tags = table_tags(old_v);
    let wc = chars_of(w.as_str());
    let mut k: usize = 0;
    while k < table.len() && lex_less(&chars_of(table[k].tag.as_str()), &wc)
        invariant
            k <= table.len(),
            table@ == old_v,
            tags == table_tags(old_v),
            wc@ == w@,
            forall|i: int| 0 <= i < k ==> lex_lt(#[trigger] tags[i], w@),
        decreases table.len() - k,
    {
        assert(tags[k as int] == table@[k as int].tag@);
        k += 1;
    }
    if k < table.len() && chars_equal(&chars_of(table[k].tag.as_str()), &wc) {
        let c = table[k].count;
        let nc = if c < usize::MAX { c + 1 } else { c };
        let entry = TagCount { tag: w, count: nc };
        let ghost kk = k as int;
        proof {
            lemma_count_of_at(old_v, kk);
        }
        table.set(k, entry);
        let ghost nv = table@;
        assert(table_tags(nv) =~= tags);
        assert forall|t: Seq<char>| #[trigger] count_of(nv, t) == if t == w@ {
            let c = count_of(old_v, t);
            if c < usize::MAX { c + 1 } else { c }
        } else {
            count_of(old_v, t)
        } by {
            if t == w@ {
                lemma_count_of_at(nv, kk);
            } else {
                if exists|i: int| 0 <= i < old_v.len() && (#[trigger] old_v[i]).tag@ == t {
                    let i = choose|i: int| 0 <= i < old_v.len() && (#[trigger] old_v[i]).tag@ == t;
                    lemma_count_of_at(old_v, i);
                    assert(nv[i] == old_v[i]);
                    lemma_count_of_at(nv, i);
                } else {
                    assert forall|i: int| 0 <= i < nv.len() implies (#[trigger] nv[i]).tag@ != t by {
                        if i != kk {
                            assert(nv[i] == old_v[i]);
                        }
                    }
                }
            }
        }
        return;
    }
    // Every tag from position k on sorts strictly after w.
    assert forall|i: int| k <= i < tags.len() implies lex_lt(w@, #[trigger] tags[i]) by {
        lemma_lex_order(tags[k as int], w@);
        if i > k {
            lemma_lex_transitive(w@, tags[k as int], tags[i], 0);
        }
    }
    let ghost kk = k as int;
    let ghost wv = w@;
    table.insert(k, TagCount { tag: w, count: 1 });
    let ghost nv = table@;
    let ghost ntags = table_tags(nv);
    assert(ntags =~= tags.insert(kk, wv));
    assert(forall|i: int| 0 <= i < old_v.len() ==> (#[trigger] old_v[i]).tag@ != wv) by {
        assert forall|i: int| 0 <= i < old_v.len() implies (#[trigger] old_v[i]).tag@ != wv by {
            assert(tags[i] == old_v[i].tag@);
            lemma_lex_order(wv, wv);
        }
    }
    assert forall|i: int, j: int| 0 <= i < j < ntags.len() implies lex_lt(
        #[trigger] ntags[i],
        #[trigger] ntags[j],
    ) by {
        if j < kk {
        } else if j == kk {
        } else if i < kk {
            lemma_lex_transitive(ntags[i], wv, ntags[j], 0);
        } else if i == kk {
        } else {
            assert(ntags[i] == tags[i - 1] && ntags[j] == tags[j - 1]);
        }
    }
    assert forall|i: int| 0 <= i < nv.len() implies (#[trigger] nv[i]).count >= 1 by {
        if i < kk {
            assert(nv[i] == old_v[i]);
        } else if i > kk {
            assert(nv[i] == old_v[i - 1]);
        }
    }
    assert forall|t: Seq<char>| #[trigger] count_of(nv, t) == if t == wv {
        let c = count_of(old_v, t);
        if c < usize::MAX { c + 1 } else { c }
    } else {
        count_of(old_v, t)
    } by {
        if t == wv {
            lemma_count_of_absent(old_v, t);
            assert(nv[kk].tag@ == wv);
            lemma_count_of_at(nv, kk);
        } else {
            if exists|i: int| 0 <= i < old_v.len() && (#[trigger] old_v[i]).tag@ == t {
                let i = choose|i: int| 0 <= i < old_v.len() && (#[trigger] old_v[i]).tag@ == t;
                lemma_count_of_at(old_v, i);
                let ni = if i < kk { i } else { i + 1 };
                assert(nv[ni] == old_v[i]);
                lemma_count_of_at(nv, ni);
            } else {
                assert forall|i: int| 0 <= i < nv.len() implies (#[trigger] nv[i]).tag@ != t by {
                    if i < kk {
                        assert(nv[i] == old_v[i]);
                    } else if i > kk {
                        assert(nv[i] == old_v[i - 1]);
                    }
                }
            }
        }
    }
}

/// Counts the tags of the given tag texts: every whitespace-separated
/// word counts once per occurrence; the table lists each tag that occurs
/// once, in ascending order.
pub fn count_tags(rows: &Vec<String>) -> (r: Vec<TagCount>)
    ensures
        counts_tags_of(r@, views(rows@)),
{
    let ghost rv = views(rows@);
    let mut table: Vec<TagCount> = Vec::new();
    let mut i: usize = 0;
    while i < rows.len()
        invariant
            i <= rows.len(),
            rv == views(rows@),
            is_tag_table(table@),
            forall|t: Seq<char>| #[trigger] count_of(table@, t) == saturate(tag_occurrences(rv.take(i as int), t)),
        decreases rows.len() - i,
    {
        let ws = split_whitespace(rows[i].as_str());
        let ghost wv = views(ws@);
        assert(rv[i as int] == rows@[i as int]@);
        assert(rv.take(i + 1).drop_last() =~= rv.take(i as int));
        let mut j: usize = 0;
        while j < ws.len()
            invariant
                i < rows.len(),
                j <= ws.len(),
                rv == views(rows@),
                wv == views(ws@),
                wv == words(rv[i as int]),
                is_tag_table(table@),
                forall|t: Seq<char>| #[trigger] count_of(table@, t) == saturate(
                    tag_occurrences(rv.take(i as int), t) + count_in(wv.take(j as int), t),
                ),
            decreases ws.len() - j,
        {
            let w = ws[j].clone();
            assert(wv[j as int] == w@);
            let ghost before = table@;
            add_tag(&mut table, w);
            assert(wv.take(j + 1).drop_last() =~= wv.take(j as int));
            assert forall|t: Seq<char>| #[trigger] count_of(table@, t) == saturate(
                tag_occurrences(rv.take(i as int), t) + count_in(wv.take(j + 1), t),
            ) by {
                assert(count_of(before, t) == saturate(
                    tag_occurrences(rv.take(i as int), t) + count_in(wv.take(j as int), t),
                ));
            }
            j += 1;
        }
        assert(wv.take(ws.len() as int) =~= wv);
        i += 1;
    }
    assert(rv.take(rows.len() as int) =~= rv);
    table
}

/// The count of `t` in a tag table, if it is there.
pub fn tag_count(table: &Vec<TagCount>, t: &str) -> (r: Option<usize>)
    requires
        is_tag_table(table@),
    ensures
        r matches Some(c) ==> c == count_of(table@, t@) && c >= 1,
        r is None ==> count_of(table@, t@) == 0,
{
    let tc = chars_of(t);
    let mut i: usize = 0;
    while i < table.len()
        invariant
            i <= table.len(),
            tc@ == t@,
            is_tag_table(table@),
            forall|k: int| 0 <= k < i ==> (#[trigger] table@[k]).tag@ != t@,
        decreases table.len() - i,
    {
        if chars_equal(&chars_of(table[i].tag.as_str()), &tc) {
            proof {
                lemma_count_of_at(table@, i as int);
            }
            return Some(table[i].count);
        }
        i += 1;
    }
    None
}

} // verus!
