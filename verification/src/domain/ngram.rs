//! Character n-grams of CJK text, stored beside each record so that
//! short Chinese, Japanese and Korean terms can be found by the
//! full-text index.
use vstd::prelude::*;
use vstd::string::*;

use crate::domain::order::{insert_sorted, lemma_sorted_unique, strictly_sorted, vviews};
use crate::domain::text::{
    words, chars_of, is_ws, join, join_strings, lemma_words_of_join, string_of, views, well_formed_words, ws_free,
};

verus! {

/// A character in one of the CJK blocks whose runs are split into
/// n-grams: CJK Unified Ideographs and Extension A, CJK Compatibility
/// Ideographs, Hiragana and Katakana, Hangul Syllables.
pub open spec fn is_cjk_char(c: char) -> bool {
    ||| ('\u{4e00}' <= c && c <= '\u{9fff}')
    ||| ('\u{3400}' <= c && c <= '\u{4dbf}')
    ||| ('\u{f900}' <= c && c <= '\u{faff}')
    ||| ('\u{3040}' <= c && c <= '\u{30ff}')
    ||| ('\u{ac00}' <= c && c <= '\u{d7af}')
}

/// Every character of `w` is a CJK character.
pub open spec fn all_cjk(w: Seq<char>) -> bool {
    forall|i: int| 0 <= i < w.len() ==> is_cjk_char(#[trigger] w[i])
}

/// Positions `j .. j + n` lie within `t`, for an n-gram length `n` of 2 or 3.
pub open spec fn is_window(t: Seq<char>, j: int, n: int) -> bool {
    (n == 2 || n == 3) && 0 <= j && j + n <= t.len()
}

/// `g` is the window of `t` at `j` of length `n`.
pub open spec fn window_is(t: Seq<char>, j: int, n: int, g: Seq<char>) -> bool {
    is_window(t, j, n) && g == t.subrange(j, j + n)
}

/// `g` is an n-gram of `t`: a window of 2 or 3 consecutive CJK characters.
pub open spec fn gram_is(t: Seq<char>, j: int, n: int, g: Seq<char>) -> bool {
    window_is(t, j, n, g) && all_cjk(g)
}

/// All windows of 2 or 3 consecutive characters of `t`.
pub open spec fn windows(t: Seq<char>) -> Set<Seq<char>> {
    Set::new(|g: Seq<char>| exists|j: int, n: int| #[trigger] window_is(t, j, n, g))
}

/// The n-grams of `t`: every window of 2 or 3 consecutive characters
/// that are all CJK (equivalently, the 2- and 3-windows of each maximal
/// run of CJK characters).
pub open spec fn ngram_set(t: Seq<char>) -> Set<Seq<char>> {
    Set::new(|g: Seq<char>| exists|j: int, n: int| #[trigger] gram_is(t, j, n, g))
}

/// The items of `s`, each once, in ascending code point order.
pub open spec fn sorted_list_of(s: Set<Seq<char>>) -> Seq<Seq<char>> {
    choose|l: Seq<Seq<char>>| strictly_sorted(l) && l.to_set() == s
}

/// The n-grams of `t`, each once, in ascending code point order.
pub open spec fn ngram_list(t: Seq<char>) -> Seq<Seq<char>> {
    sorted_list_of(ngram_set(t))
}

/// The search text stored for `t`: its n-grams joined by single spaces.
pub open spec fn search_ngrams(t: Seq<char>) -> Seq<char> {
    join(ngram_list(t), seq![' '])
}

/// The windows of a text all of whose characters are CJK are its n-grams.
proof fn lemma_windows_of_cjk_run(c: Seq<char>)
    requires
        all_cjk(c),
    ensures
        windows(c) == ngram_set(c),
{
    assert forall|g: Seq<char>| windows(c).contains(g) implies ngram_set(c).contains(g) by {
        let (j, n) = choose|j: int, n: int| #[trigger] window_is(c, j, n, g);
        assert forall|k: int| 0 <= k < g.len() implies is_cjk_char(#[trigger] g[k]) by {
            assert(g[k] == c[j + k]);
        }
        assert(gram_is(c, j, n, g));
    }
    assert forall|g: Seq<char>| ngram_set(c).contains(g) implies windows(c).contains(g) by {
        let (j, n) = choose|j: int, n: int| #[trigger] gram_is(c, j, n, g);
        assert(window_is(c, j, n, g));
    }
    assert(windows(c) =~= ngram_set(c));
}

/// At a break (the start of the text, or just after a non-CJK character)
/// the n-grams of a text are those of the part before and the part after.
proof fn lemma_ngram_set_split(t: Seq<char>, b: int)
    requires
        0 <= b <= t.len(),
        b == 0 || !is_cjk_char(t[b - 1]),
    ensures
        ngram_set(t) == ngram_set(t.take(b)).union(ngram_set(t.skip(b))),
{
    let l = t.take(b);
    let r = t.skip(b);
    assert forall|g: Seq<char>| ngram_set(t).contains(g) implies ngram_set(l).union(
        ngram_set(r),
    ).contains(g) by {
        let (j, n) = choose|j: int, n: int| #[trigger] gram_is(t, j, n, g);
        if j + n <= b {
            assert(g =~= l.subrange(j, j + n));
            assert(gram_is(l, j, n, g));
        } else if j >= b {
            assert(g =~= r.subrange(j - b, j - b + n));
            assert(gram_is(r, j - b, n, g));
        } else {
            assert(g[b - 1 - j] == t[b - 1]);
            assert(false);
        }
    }
    assert forall|g: Seq<char>| ngram_set(l).union(ngram_set(r)).contains(g) implies ngram_set(
        t,
    ).contains(g) by {
        if ngram_set(l).contains(g) {
            let (j, n) = choose|j: int, n: int| #[trigger] gram_is(l, j, n, g);
            assert(g =~= t.subrange(j, j + n));
            assert(gram_is(t, j, n, g));
        } else {
            let (j, n) = choose|j: int, n: int| #[trigger] gram_is(r, j, n, g);
            assert(g =~= t.subrange(j + b, j + b + n));
            assert(gram_is(t, j + b, n, g));
        }
    }
    assert(ngram_set(t) =~= ngram_set(l).union(ngram_set(r)));
}

/// A trailing non-CJK character adds no n-gram.
proof fn lemma_ngram_set_non_cjk_last(t: Seq<char>)
    requires
        t.len() > 0,
        !is_cjk_char(t.last()),
    ensures
        ngram_set(t) == ngram_set(t.drop_last()),
{
    let d = t.drop_last();
    assert forall|g: Seq<char>| ngram_set(t).contains(g) implies ngram_set(d).contains(g) by {
        let (j, n) = choose|j: int, n: int| #[trigger] gram_is(t, j, n, g);
        if j + n > d.len() {
            assert(g[t.len() - 1 - j] == t.last());
            assert(false);
        }
        assert(g =~= d.subrange(j, j + n));
        assert(gram_is(d, j, n, g));
    }
    assert forall|g: Seq<char>| ngram_set(d).contains(g) implies ngram_set(t).contains(g) by {
        let (j, n) = choose|j: int, n: int| #[trigger] gram_is(d, j, n, g);
        assert(g =~= t.subrange(j, j + n));
        assert(gram_is(t, j, n, g));
    }
    assert(ngram_set(t) =~= ngram_set(d));
}

/// Whether `ch` is a CJK character.
pub fn is_cjk(ch: char) -> (r: bool)
    ensures
        r == is_cjk_char(ch),
{
    ('\u{4e00}' <= ch && ch <= '\u{9fff}') || ('\u{3400}' <= ch && ch <= '\u{4dbf}') || (
    '\u{f900}' <= ch && ch <= '\u{faff}') || ('\u{3040}' <= ch && ch <= '\u{30ff}') || ('\u{ac00}'
        <= ch && ch <= '\u{d7af}')
}

/// The windows of `n` consecutive characters of `t`, from left to right.
pub open spec fn window_list(t: Seq<char>, n: int) -> Seq<Seq<char>> {
    if t.len() < n {
        seq![]
    } else {
        Seq::new((t.len() - n + 1) as nat, |j: int| t.subrange(j, j + n))
    }
}

/// The windows listed by `window_list` for lengths 2 and 3 are exactly
/// the windows of `t`.
proof fn lemma_window_lists(t: Seq<char>)
    ensures
        (window_list(t, 2) + window_list(t, 3)).to_set() == windows(t),
{
    let a = window_list(t, 2);
    let b = window_list(t, 3);
    let l = a + b;
    assert forall|g: Seq<char>| l.to_set().contains(g) implies windows(t).contains(g) by {
        let k = choose|k: int| 0 <= k < l.len() && l[k] == g;
        if k < a.len() {
            assert(window_is(t, k, 2, g));
        } else {
            assert(l[k] == b[k - a.len()]);
            assert(window_is(t, k - a.len(), 3, g));
        }
    }
    assert forall|g: Seq<char>| windows(t).contains(g) implies l.to_set().contains(g) by {
        let (j, n) = choose|j: int, n: int| #[trigger] window_is(t, j, n, g);
        if n == 2 {
            assert(a[j] == g);
            assert(l[j] == g);
        } else {
            assert(b[j] == g);
            assert(l[a.len() + j] == g);
        }
    }
    assert(l.to_set() =~= windows(t));
}

/// Appends to `grams` every window of `n` consecutive characters of
/// `chars`, from left to right.
fn push_windows(chars: &[char], n: usize, grams: &mut Vec<String>)
    requires
        1 <= n,
    ensures
        views(final(grams)@) == views(old(grams)@) + window_list(chars@, n as int),
{
    let ghost base = views(grams@);
    let ghost wl = window_list(chars@, n as int);
    if chars.len() < n {
        assert(views(grams@) =~= base + wl);
        return;
    }
    let mut start: usize = 0;
    while start <= chars.len() - n
        invariant
            1 <= n <= chars.len(),
            start <= chars.len() - n + 1,
            wl == window_list(chars@, n as int),
            wl.len() == chars.len() - n + 1,
            views(grams@) == base + wl.take(start as int),
        decreases chars.len() - n + 1 - start,
    {
        let mut w: Vec<char> = Vec::new();
        let mut k: usize = 0;
        while k < n
            invariant
                k <= n,
                start + n <= chars.len(),
                w@ == chars@.subrange(start as int, start + k),
            decreases n - k,
        {
            w.push(chars[start + k]);
            k += 1;
            assert(w@ =~= chars@.subrange(start as int, start + k));
        }
        let g = string_of(w.as_slice());
        let ghost prev = grams@;
        grams.push(g);
        assert(grams@ =~= prev.push(g));
        assert(views(grams@) =~= views(prev).push(g@));
        assert(wl[start as int] == g@);
        assert(wl.take(start + 1) =~= wl.take(start as int).push(wl[start as int]));
        start += 1;
    }
    assert(wl.take(start as int) =~= wl);
}

/// Appends to `grams` every window of 2 consecutive characters of
/// `chars`, from left to right, then every window of 3; repeated windows
/// are appended each time.
pub fn push_ngrams(chars: &[char], grams: &mut Vec<String>)
    ensures
        views(final(grams)@) == views(old(grams)@) + window_list(chars@, 2) + window_list(chars@, 3),
{
    push_windows(chars, 2, grams);
    push_windows(chars, 3, grams);
}

/// Appending the windows of `c` adds exactly the windows of `c` to the
/// set of grams.
proof fn lemma_appended_set(before: Seq<Seq<char>>, c: Seq<char>, after: Seq<Seq<char>>)
    requires
        after == before + window_list(c, 2) + window_list(c, 3),
    ensures
        after.to_set() == before.to_set().union(windows(c)),
{
    lemma_window_lists(c);
    let w = window_list(c, 2) + window_list(c, 3);
    assert(after =~= before + w);
    assert forall|g: Seq<char>| after.to_set().contains(g) implies before.to_set().union(
        windows(c),
    ).contains(g) by {
        let k = choose|k: int| 0 <= k < after.len() && after[k] == g;
        if k < before.len() {
            assert(before[k] == g);
        } else {
            assert(w[k - before.len()] == g);
            assert(w.to_set().contains(g));
        }
    }
    assert forall|g: Seq<char>| before.to_set().union(windows(c)).contains(g) implies after.to_set().contains(
        g,
    ) by {
        if before.contains(g) {
            let k = choose|k: int| 0 <= k < before.len() && before[k] == g;
            assert(after[k] == g);
        } else {
            assert(w.to_set().contains(g));
            let k = choose|k: int| 0 <= k < w.len() && w[k] == g;
            assert(after[before.len() + k] == g);
        }
    }
    assert(after.to_set() =~= before.to_set().union(windows(c)));
}

/// The n-grams of `text` as search terms: every run of consecutive CJK
/// characters contributes all its windows of 2 and of 3 characters; the
/// distinct n-grams are sorted and joined by single spaces.
pub fn make_search_ngrams(text: &str) -> (r: String)
    ensures
        r@ == search_ngrams(text@),
        strictly_sorted(ngram_list(text@)),
        ngram_list(text@).to_set() == ngram_set(text@),
        words(r@) == ngram_list(text@),
        r@.len() == 0 <==> ngram_set(text@) == Set::<Seq<char>>::empty(),
{
    let cs = chars_of(text);
    let ghost t = cs@;
    let mut grams: Vec<String> = Vec::new();
    let mut current: Vec<char> = Vec::new();
    let ghost mut rs: int = 0;
    assert(views(grams@).to_set() =~= ngram_set(t.take(0))) by {
        assert forall|g: Seq<char>| !ngram_set(t.take(0)).contains(g) by {
            if ngram_set(t.take(0)).contains(g) {
                let (j, n) = choose|j: int, n: int| #[trigger] gram_is(t.take(0), j, n, g);
            }
        }
    }
    let mut i: usize = 0;
    while i < cs.len()
        invariant
            i <= cs.len(),
            t == cs@,
            0 <= rs <= i,
            rs == 0 || !is_cjk_char(t[rs - 1]),
            current@ == t.subrange(rs, i as int),
            all_cjk(current@),
            views(grams@).to_set() == ngram_set(t.take(rs)),
        decreases cs.len() - i,
    {
        let ch = cs[i];
        if is_cjk(ch) {
            current.push(ch);
            assert(current@ =~= t.subrange(rs, i + 1));
            assert forall|k: int| 0 <= k < current@.len() implies is_cjk_char(
                #[trigger] current@[k],
            ) by {
                if k < current@.len() - 1 {
                    assert(current@[k] == current@.drop_last()[k]);
                }
            }
        } else {
            let ghost before = views(grams@);
            push_ngrams(current.as_slice(), &mut grams);
            proof {
                let p = t.take(i as int);
                lemma_appended_set(before, current@, views(grams@));
                lemma_windows_of_cjk_run(current@);
                assert(p.take(rs) =~= t.take(rs));
                assert(p.skip(rs) =~= t.subrange(rs, i as int));
                lemma_ngram_set_split(p, rs);
                assert(t.take(i + 1).drop_last() =~= p);
                lemma_ngram_set_non_cjk_last(t.take(i + 1));
                rs = i + 1;
            }
            current = Vec::new();
            assert(current@ =~= t.subrange(rs, i + 1));
        }
        i += 1;
    }
    let ghost before = views(grams@);
    push_ngrams(current.as_slice(), &mut grams);
    proof {
        lemma_appended_set(before, current@, views(grams@));
        lemma_windows_of_cjk_run(current@);
        assert(t.skip(rs) =~= t.subrange(rs, t.len() as int));
        lemma_ngram_set_split(t, rs);
    }
    let ghost all = views(grams@);
    assert(all.to_set() == ngram_set(text@));
    let mut sorted: Vec<Vec<char>> = Vec::new();
    assert(vviews(sorted@).to_set() =~= all.take(0).to_set());
    for k in 0..grams.len()
        invariant
            all == views(grams@),
            strictly_sorted(vviews(sorted@)),
            vviews(sorted@).to_set() == all.take(k as int).to_set(),
    {
        let w = chars_of(grams[k].as_str());
        assert(w@ == all[k as int]);
        insert_sorted(&mut sorted, w);
        assert(all.take(k + 1) =~= all.take(k as int).push(all[k as int]));
        assert(all.take(k + 1).to_set() =~= all.take(k as int).to_set().insert(all[k as int])) by {
            let a = all.take(k as int);
            let b = all.take(k + 1);
            assert forall|g: Seq<char>| b.to_set().contains(g) implies a.to_set().insert(
                all[k as int],
            ).contains(g) by {
                let m = choose|m: int| 0 <= m < b.len() && b[m] == g;
                if m < a.len() {
                    assert(a[m] == g);
                }
            }
            assert forall|g: Seq<char>| a.to_set().insert(all[k as int]).contains(g) implies b.to_set().contains(
                g,
            ) by {
                if a.contains(g) {
                    let m = choose|m: int| 0 <= m < a.len() && a[m] == g;
                    assert(b[m] == g);
                } else {
                    assert(b[k as int] == g);
                }
            }
        }
    }
    assert(all.take(grams.len() as int) =~= all);
    let ghost gl = vviews(sorted@);
    assert(gl.to_set() == ngram_set(text@));
    proof {
        lemma_sorted_unique(gl, ngram_list(text@));
    }
    let mut words: Vec<String> = Vec::new();
    for k in 0..sorted.len()
        invariant
            gl == vviews(sorted@),
            views(words@) == gl.take(k as int),
    {
        let s = string_of(sorted[k].as_slice());
        assert(gl[k as int] == sorted@[k as int]@);
        let ghost prev = words@;
        words.push(s);
        assert(words@ =~= prev.push(s));
        assert(views(words@) =~= views(prev).push(gl[k as int]));
        assert(gl.take(k + 1) =~= gl.take(k as int).push(gl[k as int]));
    }
    assert(gl.take(sorted.len() as int) =~= gl);
    let r = join_strings(&words, " ");
    proof {
        reveal_strlit(" ");
        assert(" "@ =~= seq![' ']);
        lemma_grams_well_formed(text@);
        lemma_words_of_join(gl);
        lemma_join_empty(gl, seq![' ']);
        if ngram_set(text@) == Set::<Seq<char>>::empty() {
            if gl.len() > 0 {
                assert(gl.to_set().contains(gl[0]));
            }
        } else {
            if !exists|g: Seq<char>| ngram_set(text@).contains(g) {
                assert(ngram_set(text@) =~= Set::<Seq<char>>::empty());
            }
            let g = choose|g: Seq<char>| ngram_set(text@).contains(g);
            assert(gl.to_set().contains(g));
            assert(gl.len() > 0);
        }
    }
    r
}

/// A CJK character is never whitespace.
proof fn lemma_cjk_not_ws(c: char)
    requires
        is_cjk_char(c),
    ensures
        !is_ws(c),
{
}

/// The sorted n-grams of a text are non-empty and free of whitespace.
proof fn lemma_grams_well_formed(t: Seq<char>)
    requires
        strictly_sorted(ngram_list(t)),
        ngram_list(t).to_set() == ngram_set(t),
    ensures
        well_formed_words(ngram_list(t)),
{
    let l = ngram_list(t);
    assert forall|i: int| 0 <= i < l.len() implies (#[trigger] l[i]).len() > 0 && ws_free(l[i]) by {
        assert(l.to_set().contains(l[i]));
        let (j, n) = choose|j: int, n: int| #[trigger] gram_is(t, j, n, l[i]);
        assert forall|k: int| 0 <= k < l[i].len() implies !is_ws(#[trigger] l[i][k]) by {
            lemma_cjk_not_ws(l[i][k]);
        }
    }
}

/// Joining is empty exactly when there is nothing to join or the only
/// item is empty.
proof fn lemma_join_empty(l: Seq<Seq<char>>, sep: Seq<char>)
    requires
        forall|i: int| 0 <= i < l.len() ==> (#[trigger] l[i]).len() > 0,
    ensures
        join(l, sep).len() == 0 <==> l.len() == 0,
{
    if l.len() > 1 {
        assert(l[l.len() - 1].len() > 0);
        assert(join(l, sep).len() >= l.last().len());
    } else if l.len() == 1 {
        assert(l[0].len() > 0);
    }
}

/// Two texts joined by a character that is not CJK have exactly the
/// n-grams of the two parts, and their search text does not depend on
/// the order of the parts.
pub proof fn lemma_ngrams_of_joined(a: Seq<char>, sep: char, b: Seq<char>)
    requires
        !is_cjk_char(sep),
    ensures
        ngram_set(a + seq![sep] + b) == ngram_set(a).union(ngram_set(b)),
        search_ngrams(a + seq![sep] + b) == search_ngrams(b + seq![sep] + a),
{
    lemma_ngrams_of_joined_set(a, sep, b);
    lemma_ngrams_of_joined_set(b, sep, a);
    assert(ngram_set(a).union(ngram_set(b)) =~= ngram_set(b).union(ngram_set(a)));
}

proof fn lemma_ngrams_of_joined_set(a: Seq<char>, sep: char, b: Seq<char>)
    requires
        !is_cjk_char(sep),
    ensures
        ngram_set(a + seq![sep] + b) == ngram_set(a).union(ngram_set(b)),
{
    let t = a + seq![sep] + b;
    let k: int = a.len() as int + 1;
    assert(t[k - 1] == sep);
    lemma_ngram_set_split(t, k);
    let head = t.take(k);
    assert(head =~= a.push(sep));
    assert(head.drop_last() =~= a);
    lemma_ngram_set_non_cjk_last(head);
    assert(t.skip(k) =~= b);
}

/// A character of one of the CJK blocks, by code point: CJK Unified
/// Ideographs U+4E00 to U+9FFF, Extension A U+3400 to U+4DBF, CJK
/// Compatibility Ideographs U+F900 to U+FAFF, Hiragana and Katakana
/// U+3040 to U+30FF, Hangul Syllables U+AC00 to U+D7AF.
pub open spec fn in_cjk_block(c: char) -> bool {
    let u = c as u32;
    ||| (0x4E00 <= u && u <= 0x9FFF)
    ||| (0x3400 <= u && u <= 0x4DBF)
    ||| (0xF900 <= u && u <= 0xFAFF)
    ||| (0x3040 <= u && u <= 0x30FF)
    ||| (0xAC00 <= u && u <= 0xD7AF)
}

/// Exactly the characters of the CJK blocks are split into n-grams.
pub proof fn lemma_cjk_blocks(c: char)
    ensures
        is_cjk_char(c) <==> in_cjk_block(c),
{
}

/// Two or three consecutive characters of the CJK blocks are always one
/// of the n-grams of a text that holds them.
pub proof fn lemma_cjk_window_is_gram(t: Seq<char>, j: int, n: int)
    requires
        n == 2 || n == 3,
        0 <= j,
        j + n <= t.len(),
        forall|i: int| j <= i < j + n ==> in_cjk_block(#[trigger] t[i]),
    ensures
        ngram_set(t).contains(t.subrange(j, j + n)),
{
    let g = t.subrange(j, j + n);
    assert forall|i: int| 0 <= i < g.len() implies is_cjk_char(#[trigger] g[i]) by {
        assert(g[i] == t[j + i]);
        lemma_cjk_blocks(t[j + i]);
    }
    assert(gram_is(t, j, n, g));
}

} // verus!
