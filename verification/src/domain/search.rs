//! Search results, and how the results of the exact, full-text and
//! substring lookups are combined.
use vstd::prelude::*;
use vstd::string::*;

use crate::domain::text::{all_ws, chars_of, split_whitespace, views, words};

verus! {

broadcast use vstd::std_specs::hash::group_hash_axioms;

/// One search hit.
#[derive(Debug)]
pub struct SearchResult {
    pub rowid: i64,
    pub key: Option<String>,
    pub title: String,
    pub tags_text: String,
    pub service: Option<String>,
    pub env: Option<String>,
    pub snippet: String,
    pub match_kind: String,
}

/// Some item of `s` has row id `id`.
pub open spec fn has_rowid(s: Seq<SearchResult>, id: i64) -> bool {
    exists|i: int| 0 <= i < s.len() && (#[trigger] s[i]).rowid == id
}

/// `s` with every hit after the first one for the same row dropped.
pub open spec fn first_per_rowid(s: Seq<SearchResult>) -> Seq<SearchResult>
    decreases s.len(),
{
    if s.len() == 0 {
        seq![]
    } else {
        let p = first_per_rowid(s.drop_last());
        if has_rowid(p, s.last().rowid) {
            p
        } else {
            p.push(s.last())
        }
    }
}

/// The hit of an optional lookup, as a sequence of at most one item.
pub open spec fn opt_seq(o: Option<SearchResult>) -> Seq<SearchResult> {
    match o {
        Some(r) => seq![r],
        None => seq![],
    }
}

/// At most the first `limit` items of `s`.
pub open spec fn take_at_most<T>(s: Seq<T>, limit: nat) -> Seq<T> {
    if s.len() <= limit {
        s
    } else {
        s.take(limit as int)
    }
}

/// The combined search results: the exact hit, then the full-text hits,
/// then the substring hits, each row only at its first place, cut to
/// `limit` items.
pub open spec fn merged_results(
    exact: Option<SearchResult>,
    fts: Seq<SearchResult>,
    trigram: Seq<SearchResult>,
    limit: nat,
) -> Seq<SearchResult> {
    take_at_most(first_per_rowid(opt_seq(exact) + fts + trigram), limit)
}

/// No two items share a row id.
pub open spec fn distinct_rowids(s: Seq<SearchResult>) -> bool {
    forall|i: int, j: int| 0 <= i < j < s.len() ==> (#[trigger] s[i]).rowid != (#[trigger] s[j]).rowid
}

/// Whether the substring (trigram) lookup is run: the query has a word,
/// at least 3 characters, and fewer than `limit` rows were found so far.
pub open spec fn wants_trigram_spec(query: Seq<char>, found: nat, limit: nat) -> bool {
    !all_ws(query) && query.len() >= 3 && found < limit
}

/// Whether the substring (trigram) lookup should run.
pub fn wants_trigram(query: &str, found: usize, limit: usize) -> (r: bool)
    ensures
        r == wants_trigram_spec(query@, found as nat, limit as nat),
{
    !crate::domain::text::is_blank(query) && query.unicode_len() >= 3 && found < limit
}

proof fn lemma_first_per_rowid_distinct(s: Seq<SearchResult>)
    ensures
        distinct_rowids(first_per_rowid(s)),
    decreases s.len(),
{
    if s.len() > 0 {
        lemma_first_per_rowid_distinct(s.drop_last());
        let p = first_per_rowid(s.drop_last());
        if !has_rowid(p, s.last().rowid) {
            let q = p.push(s.last());
            assert forall|i: int, j: int| 0 <= i < j < q.len() implies (#[trigger] q[i]).rowid
                != (#[trigger] q[j]).rowid by {
                if j == q.len() - 1 {
                    assert(q[i] == p[i]);
                    if q[i].rowid == q[j].rowid {
                        assert(has_rowid(p, s.last().rowid));
                    }
                } else {
                    assert(q[i] == p[i] && q[j] == p[j]);
                }
            }
        }
    }
}

/// Combines the hits of the three lookups: the exact key or id hit comes
/// first, then the full-text hits, then the substring hits; a row found
/// again is kept only at its first place; at most `limit` results.
pub fn merge_search_results(
    exact: Option<SearchResult>,
    fts: Vec<SearchResult>,
    trigram: Vec<SearchResult>,
    limit: usize,
) -> (r: Vec<SearchResult>)
    ensures
        r@ == merged_results(exact, fts@, trigram@, limit as nat),
        (opt_seq(exact) + fts@ + trigram@).len() <= usize::MAX,
        r@.len() <= limit,
        distinct_rowids(r@),
        exact is Some && limit > 0 ==> r@[0] == exact->0,
{
    let ghost all = opt_seq(exact) + fts@ + trigram@;
    let mut combined: Vec<SearchResult> = Vec::new();
    match exact {
        Some(e) => combined.push(e),
        None => {},
    }
    let mut fts = fts;
    let mut trigram = trigram;
    combined.append(&mut fts);
    combined.append(&mut trigram);
    assert(combined@ =~= all);
    assert(all.len() == combined.len());
    let mut out: Vec<SearchResult> = Vec::new();
    let mut seen: std::collections::HashSet<i64> = std::collections::HashSet::new();
    for item in it: combined
        invariant
            it.seq() == all,
            out@ == first_per_rowid(all.take(it.index() as int)),
            forall|id: i64| #[trigger] seen@.contains(id) <==> has_rowid(out@, id),
    {
        let ghost k = it.index();
        let ghost before = out@;
        assert(all.take(k + 1).drop_last() =~= all.take(k as int));
        assert(all.take(k + 1).last() == item);
        let id = item.rowid;
        if seen.insert(id) {
            out.push(item);
            assert forall|x: i64| #[trigger] seen@.contains(x) <==> has_rowid(out@, x) by {
                if has_rowid(out@, x) && x != id {
                    let j = choose|j: int| 0 <= j < out@.len() && (#[trigger] out@[j]).rowid == x;
                    assert(before[j] == out@[j]);
                }
                if has_rowid(before, x) {
                    let j = choose|j: int| 0 <= j < before.len() && (#[trigger] before[j]).rowid == x;
                    assert(out@[j] == before[j]);
                }
                if x == id {
                    assert(out@[out@.len() - 1].rowid == x);
                }
            }
        }
    }
    assert(all.take(all.len() as int) =~= all);
    proof {
        lemma_first_per_rowid_distinct(all);
    }
    out.truncate(limit);
    proof {
        let d = first_per_rowid(all);
        if d.len() > limit {
            assert(out@ =~= d.take(limit as int));
        }
        if exact is Some && limit > 0 {
            assert(all.take(1) =~= seq![exact->0]);
            assert(first_per_rowid(seq![exact->0]) =~= seq![exact->0]) by {
                let e = Seq::<SearchResult>::empty();
                assert(seq![exact->0].drop_last() =~= e);
                assert(first_per_rowid(e) == e);
                assert(!has_rowid(e, exact->0.rowid));
                assert(e.push(exact->0) =~= seq![exact->0]);
            }
            lemma_first_per_rowid_prefix(all, 1);
        }
        assert forall|i: int, j: int| 0 <= i < j < out@.len() implies (#[trigger] out@[i]).rowid
            != (#[trigger] out@[j]).rowid by {
            assert(out@[i] == d[i] && out@[j] == d[j]);
        }
    }
    out
}

/// Deduplicating a longer input keeps the deduplicated prefix in front.
proof fn lemma_first_per_rowid_prefix(s: Seq<SearchResult>, n: int)
    requires
        0 <= n <= s.len(),
    ensures
        first_per_rowid(s.take(n)).len() <= first_per_rowid(s).len(),
        forall|i: int|
            0 <= i < first_per_rowid(s.take(n)).len() ==> first_per_rowid(s)[i] == #[trigger] first_per_rowid(
                s.take(n),
            )[i],
    decreases s.len() - n,
{
    if n < s.len() {
        lemma_first_per_rowid_prefix(s, n + 1);
        assert(s.take(n + 1).drop_last() =~= s.take(n));
        let a = first_per_rowid(s.take(n));
        let b = first_per_rowid(s.take(n + 1));
        assert(a.len() <= b.len());
        assert forall|i: int| 0 <= i < a.len() implies b[i] == #[trigger] a[i] by {
            if !has_rowid(a, s.take(n + 1).last().rowid) {
                assert(b == a.push(s.take(n + 1).last()));
            }
        }
    } else {
        assert(s.take(n) =~= s);
    }
}


/// The hits of `s` that carry the tag `tag` (as a whole word of their
/// tag text), in order.
pub open spec fn with_tag(s: Seq<SearchResult>, tag: Seq<char>) -> Seq<SearchResult>
    decreases s.len(),
{
    if s.len() == 0 {
        seq![]
    } else if crate::domain::tags::has_tag_spec(s.last().tags_text@, tag) {
        with_tag(s.drop_last(), tag).push(s.last())
    } else {
        with_tag(s.drop_last(), tag)
    }
}

/// The hits of `s` whose service is exactly `service`, in order.
pub open spec fn with_service(s: Seq<SearchResult>, service: Seq<char>) -> Seq<SearchResult>
    decreases s.len(),
{
    if s.len() == 0 {
        seq![]
    } else if crate::domain::record::opt_view(s.last().service) == Some(service) {
        with_service(s.drop_last(), service).push(s.last())
    } else {
        with_service(s.drop_last(), service)
    }
}

/// Keeps the hits that carry `tag` as a whole tag, at most `limit` of them.
pub fn filter_by_tag(results: Vec<SearchResult>, tag: &str, limit: usize) -> (r: Vec<SearchResult>)
    ensures
        r@ == take_at_most(with_tag(results@, tag@), limit as nat),
{
    let ghost all = results@;
    let mut out: Vec<SearchResult> = Vec::new();
    for item in it: results
        invariant
            it.seq() == all,
            out@ == take_at_most(with_tag(all.take(it.index() as int), tag@), limit as nat),
    {
        let ghost k = it.index();
        assert(all.take(k + 1).drop_last() =~= all.take(k as int));
        assert(all.take(k + 1).last() == item);
        let ghost before = with_tag(all.take(k as int), tag@);
        if crate::domain::tags::has_tag(item.tags_text.as_str(), tag) {
            if out.len() < limit {
                out.push(item);
            }
            proof {
                let after = with_tag(all.take(k + 1), tag@);
                assert(after == before.push(all[k as int]));
                if before.len() < limit {
                    assert(out@ =~= after);
                } else {
                    assert(after.take(limit as int) =~= before.take(limit as int));
                }
            }
        }
    }
    assert(all.take(all.len() as int) =~= all);
    out
}

/// Keeps the hits whose service is exactly `service`, at most `limit` of them.
pub fn filter_by_service(results: Vec<SearchResult>, service: &str, limit: usize) -> (r: Vec<
    SearchResult,
>)
    ensures
        r@ == take_at_most(with_service(results@, service@), limit as nat),
{
    let ghost all = results@;
    let sc = chars_of(service);
    let mut out: Vec<SearchResult> = Vec::new();
    for item in it: results
        invariant
            it.seq() == all,
            sc@ == service@,
            out@ == take_at_most(with_service(all.take(it.index() as int), service@), limit as nat),
    {
        let ghost k = it.index();
        assert(all.take(k + 1).drop_last() =~= all.take(k as int));
        assert(all.take(k + 1).last() == item);
        let ghost before = with_service(all.take(k as int), service@);
        let same = match &item.service {
            Some(s) => crate::domain::order::chars_equal(&chars_of(s.as_str()), &sc),
            None => false,
        };
        if same {
            if out.len() < limit {
                out.push(item);
            }
            proof {
                let after = with_service(all.take(k + 1), service@);
                assert(after == before.push(all[k as int]));
                if before.len() < limit {
                    assert(out@ =~= after);
                } else {
                    assert(after.take(limit as int) =~= before.take(limit as int));
                }
            }
        }
    }
    assert(all.take(all.len() as int) =~= all);
    out
}


proof fn lemma_has_rowid_dedup(s: Seq<SearchResult>, id: i64)
    ensures
        has_rowid(first_per_rowid(s), id) == has_rowid(s, id),
    decreases s.len(),
{
    if s.len() > 0 {
        let d = s.drop_last();
        lemma_has_rowid_dedup(d, id);
        let p = first_per_rowid(d);
        if has_rowid(s, id) {
            let i = choose|i: int| 0 <= i < s.len() && (#[trigger] s[i]).rowid == id;
            if i < s.len() - 1 {
                assert(d[i] == s[i]);
                let j = choose|j: int| 0 <= j < p.len() && (#[trigger] p[j]).rowid == id;
                if !has_rowid(p, s.last().rowid) {
                    assert(p.push(s.last())[j] == p[j]);
                }
            } else {
                if has_rowid(p, s.last().rowid) {
                } else {
                    assert(p.push(s.last())[p.len() as int] == s.last());
                }
            }
        }
        if has_rowid(first_per_rowid(s), id) {
            let fs = first_per_rowid(s);
            let j = choose|j: int| 0 <= j < fs.len() && (#[trigger] fs[j]).rowid == id;
            if j < p.len() {
                assert(fs[j] == p[j]);
                let i = choose|i: int| 0 <= i < d.len() && (#[trigger] d[i]).rowid == id;
                assert(s[i] == d[i]);
            } else {
                assert(fs[j] == s.last());
                assert(s[s.len() - 1] == s.last());
            }
        }
    }
}

proof fn lemma_dedup_distinct_is_identity(s: Seq<SearchResult>)
    requires
        distinct_rowids(s),
    ensures
        first_per_rowid(s) == s,
    decreases s.len(),
{
    if s.len() > 0 {
        let d = s.drop_last();
        assert(distinct_rowids(d)) by {
            assert forall|i: int, j: int| 0 <= i < j < d.len() implies (#[trigger] d[i]).rowid
                != (#[trigger] d[j]).rowid by {
                assert(d[i] == s[i] && d[j] == s[j]);
            }
        }
        lemma_dedup_distinct_is_identity(d);
        if has_rowid(d, s.last().rowid) {
            let i = choose|i: int| 0 <= i < d.len() && (#[trigger] d[i]).rowid == s.last().rowid;
            assert(s[i] == d[i]);
            assert(s[s.len() - 1] == s.last());
        }
        assert(d.push(s.last()) =~= s);
    }
}

/// Deduplicating in two steps is deduplicating once.
proof fn lemma_dedup_twice(a: Seq<SearchResult>, b: Seq<SearchResult>)
    ensures
        first_per_rowid(first_per_rowid(a) + b) == first_per_rowid(a + b),
    decreases b.len(),
{
    if b.len() == 0 {
        lemma_first_per_rowid_distinct(a);
        lemma_dedup_distinct_is_identity(first_per_rowid(a));
        assert(first_per_rowid(a) + b =~= first_per_rowid(a));
        assert(a + b =~= a);
    } else {
        let b0 = b.drop_last();
        lemma_dedup_twice(a, b0);
        assert((first_per_rowid(a) + b).drop_last() =~= first_per_rowid(a) + b0);
        assert((a + b).drop_last() =~= a + b0);
        assert((first_per_rowid(a) + b).last() == b.last());
        assert((a + b).last() == b.last());
    }
}

/// Merging the exact and full-text hits first, and the substring hits
/// afterwards, gives the same results as merging all three at once.
pub proof fn lemma_merge_in_two_steps(
    exact: Option<SearchResult>,
    fts: Seq<SearchResult>,
    trigram: Seq<SearchResult>,
    limit: nat,
)
    requires
        opt_seq(exact).len() + fts.len() <= usize::MAX,
    ensures
        merged_results(None, merged_results(exact, fts, seq![], usize::MAX as nat), trigram, limit)
            == merged_results(exact, fts, trigram, limit),
{
    let e = Seq::<SearchResult>::empty();
    let base = opt_seq(exact) + fts;
    lemma_first_per_rowid_distinct(base + e);
    assert(base + e =~= base);
    let d = first_per_rowid(base);
    assert(d.len() <= base.len()) by {
        lemma_dedup_len(base);
    }
    assert(take_at_most(d, usize::MAX as nat) == d);
    assert(opt_seq(None) + d + trigram =~= d + trigram);
    lemma_dedup_twice(base, trigram);
}

/// Dropping repeated rows never makes a list longer.
pub proof fn lemma_dedup_len(s: Seq<SearchResult>)
    ensures
        first_per_rowid(s).len() <= s.len(),
    decreases s.len(),
{
    if s.len() > 0 {
        lemma_dedup_len(s.drop_last());
    }
}

/// Every hit kept by the tag filter carries the tag.
pub proof fn lemma_with_tag_has_tag(s: Seq<SearchResult>, tag: Seq<char>)
    ensures
        forall|i: int|
            0 <= i < with_tag(s, tag).len() ==> crate::domain::tags::has_tag_spec(
                (#[trigger] with_tag(s, tag)[i]).tags_text@,
                tag,
            ),
    decreases s.len(),
{
    if s.len() > 0 {
        lemma_with_tag_has_tag(s.drop_last(), tag);
    }
}

/// Every hit kept by the service filter has that service.
pub proof fn lemma_with_service_has_service(s: Seq<SearchResult>, service: Seq<char>)
    ensures
        forall|i: int|
            0 <= i < with_service(s, service).len() ==> crate::domain::record::opt_view(
                (#[trigger] with_service(s, service)[i]).service,
            ) == Some(service),
    decreases s.len(),
{
    if s.len() > 0 {
        lemma_with_service_has_service(s.drop_last(), service);
    }
}

/// Every hit kept by deduplication is a hit of the input.
proof fn lemma_dedup_subset(s: Seq<SearchResult>)
    ensures
        forall|i: int| 0 <= i < first_per_rowid(s).len() ==> s.contains(#[trigger] first_per_rowid(s)[i]),
    decreases s.len(),
{
    if s.len() > 0 {
        let d = s.drop_last();
        lemma_dedup_subset(d);
        let p = first_per_rowid(d);
        assert forall|i: int| 0 <= i < first_per_rowid(s).len() implies s.contains(
            #[trigger] first_per_rowid(s)[i],
        ) by {
            if i < p.len() {
                assert(first_per_rowid(s)[i] == p[i]);
                let k = choose|k: int| 0 <= k < d.len() && d[k] == p[i];
                assert(s[k] == d[k]);
            } else {
                assert(first_per_rowid(s)[i] == s.last());
                assert(s[s.len() - 1] == s.last());
            }
        }
    }
}

/// When the key or id lookup found a record and the limit is at least 1,
/// that record is the first search result.
pub proof fn lemma_exact_hit_first(
    exact: SearchResult,
    fts: Seq<SearchResult>,
    trigram: Seq<SearchResult>,
    limit: nat,
)
    requires
        limit >= 1,
    ensures
        merged_results(Some(exact), fts, trigram, limit).len() >= 1,
        merged_results(Some(exact), fts, trigram, limit)[0] == exact,
{
    let all = opt_seq(Some(exact)) + fts + trigram;
    lemma_first_per_rowid_prefix(all, 1);
    let one = all.take(1);
    assert(one =~= seq![exact]);
    assert(one.drop_last() =~= Seq::<SearchResult>::empty());
    assert(first_per_rowid(one.drop_last()) =~= Seq::<SearchResult>::empty());
    assert(!has_rowid(Seq::<SearchResult>::empty(), exact.rowid));
    assert(first_per_rowid(one) =~= seq![exact]);
}

/// Every search result is a hit of one of the three lookups.
pub proof fn lemma_merged_hits_come_from_lookups(
    exact: Option<SearchResult>,
    fts: Seq<SearchResult>,
    trigram: Seq<SearchResult>,
    limit: nat,
)
    ensures
        forall|i: int|
            0 <= i < merged_results(exact, fts, trigram, limit).len() ==> (opt_seq(exact) + fts
                + trigram).contains(#[trigger] merged_results(exact, fts, trigram, limit)[i]),
{
    let all = opt_seq(exact) + fts + trigram;
    lemma_dedup_subset(all);
    let d = first_per_rowid(all);
    assert forall|i: int| 0 <= i < merged_results(exact, fts, trigram, limit).len() implies all.contains(
        #[trigger] merged_results(exact, fts, trigram, limit)[i],
    ) by {
        assert(merged_results(exact, fts, trigram, limit)[i] == d[i]);
    }
}

/// With room for all of them, every row that a lookup found is among the
/// search results.
pub proof fn lemma_merged_keeps_every_row(
    exact: Option<SearchResult>,
    fts: Seq<SearchResult>,
    trigram: Seq<SearchResult>,
    limit: nat,
    id: i64,
)
    requires
        limit >= (opt_seq(exact) + fts + trigram).len(),
        has_rowid(opt_seq(exact) + fts + trigram, id),
    ensures
        has_rowid(merged_results(exact, fts, trigram, limit), id),
{
    let all = opt_seq(exact) + fts + trigram;
    lemma_has_rowid_dedup(all, id);
    lemma_dedup_len(all);
}

} // verus!
