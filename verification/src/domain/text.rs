//! Character-level text utilities: Unicode whitespace, splitting into
//! words, joining with a separator and decimal rendering of counts.
use vstd::prelude::*;
use vstd::string::*;

verus! {

/// `String::push` appends one character to the end of the string.
pub assume_specification[ String::push ](s: &mut String, ch: char)
    ensures
        final(s)@ == old(s)@.push(ch),
;

/// A character with the Unicode `White_Space` property.
pub open spec fn is_ws(c: char) -> bool {
    ||| ('\t' <= c && c <= '\r')
    ||| c == ' '
    ||| c == '\u{85}'
    ||| c == '\u{a0}'
    ||| c == '\u{1680}'
    ||| ('\u{2000}' <= c && c <= '\u{200a}')
    ||| c == '\u{2028}'
    ||| c == '\u{2029}'
    ||| c == '\u{202f}'
    ||| c == '\u{205f}'
    ||| c == '\u{3000}'
}

/// No character of `w` is whitespace.
pub open spec fn ws_free(w: Seq<char>) -> bool {
    forall|i: int| 0 <= i < w.len() ==> !is_ws(#[trigger] w[i])
}

/// Every character of `w` is whitespace (true of the empty text).
pub open spec fn all_ws(w: Seq<char>) -> bool {
    forall|i: int| 0 <= i < w.len() ==> is_ws(#[trigger] w[i])
}

/// Scanning `s` from the left: the words already closed, and the word
/// being read at the end of `s` (empty when `s` ends in whitespace).
pub open spec fn split_state(s: Seq<char>) -> (Seq<Seq<char>>, Seq<char>)
    decreases s.len(),
{
    if s.len() == 0 {
        (seq![], seq![])
    } else {
        let prev = split_state(s.drop_last());
        if is_ws(s.last()) {
            if prev.1.len() > 0 {
                (prev.0.push(prev.1), seq![])
            } else {
                (prev.0, seq![])
            }
        } else {
            (prev.0, prev.1.push(s.last()))
        }
    }
}

/// The maximal runs of non-whitespace characters of `s`, in order.
pub open spec fn words(s: Seq<char>) -> Seq<Seq<char>> {
    let st = split_state(s);
    if st.1.len() > 0 {
        st.0.push(st.1)
    } else {
        st.0
    }
}

/// The texts of a sequence of strings.
pub open spec fn views(v: Seq<String>) -> Seq<Seq<char>> {
    v.map_values(|w: String| w@)
}

/// The items of `list` with `sep` between neighbours.
pub open spec fn join(list: Seq<Seq<char>>, sep: Seq<char>) -> Seq<char>
    decreases list.len(),
{
    if list.len() == 0 {
        seq![]
    } else if list.len() == 1 {
        list[0]
    } else {
        join(list.drop_last(), sep) + sep + list.last()
    }
}

/// A word list that splitting can produce: every item non-empty and
/// free of whitespace.
pub open spec fn well_formed_words(list: Seq<Seq<char>>) -> bool {
    forall|i: int| 0 <= i < list.len() ==> (#[trigger] list[i]).len() > 0 && ws_free(list[i])
}

/// The decimal digit for `d` (`d < 10`).
pub open spec fn digit_char(d: nat) -> char {
    (48 + d) as char
}

/// The decimal rendering of `n`, without leading zeros.
pub open spec fn decimal(n: nat) -> Seq<char>
    decreases n,
{
    if n < 10 {
        seq![digit_char(n)]
    } else {
        decimal(n / 10).push(digit_char(n % 10))
    }
}

/// Whether `c` is whitespace in the Unicode sense.
pub fn is_whitespace(c: char) -> (r: bool)
    ensures
        r == is_ws(c),
{
    ('\t' <= c && c <= '\r') || c == ' ' || c == '\u{85}' || c == '\u{a0}' || c == '\u{1680}'
        || ('\u{2000}' <= c && c <= '\u{200a}') || c == '\u{2028}' || c == '\u{2029}'
        || c == '\u{202f}' || c == '\u{205f}' || c == '\u{3000}'
}

/// The characters of `s`, in order, as a vector.
pub fn chars_of(s: &str) -> (v: Vec<char>)
    ensures
        v@ == s@,
{
    let mut v: Vec<char> = Vec::new();
    for c in it: s.chars()
        invariant
            v@ == it.seq().take(it.index() as int),
    {
        v.push(c);
    }
    v
}

/// A string holding the characters of `v`, in order.
pub fn string_of(v: &[char]) -> (s: String)
    ensures
        s@ == v@,
{
    let mut s = String::new();
    for i in 0..v.len()
        invariant
            s@ == v@.take(i as int),
    {
        s.push(v[i]);
        assert(v@.take(i + 1) =~= v@.take(i as int).push(v@[i as int]));
    }
    assert(v@.take(v.len() as int) =~= v@);
    s
}

/// Whether `a` and `b` are the same text.
pub fn str_equal(a: &str, b: &str) -> (r: bool)
    ensures
        r == (a@ == b@),
{
    let ac = chars_of(a);
    let bc = chars_of(b);
    crate::domain::order::chars_equal(&ac, &bc)
}

/// Whether `s` holds nothing but whitespace.
pub fn is_blank(s: &str) -> (r: bool)
    ensures
        r == all_ws(s@),
{
    let cs = chars_of(s);
    let mut i: usize = 0;
    while i < cs.len()
        invariant
            i <= cs.len(),
            cs@ == s@,
            forall|j: int| 0 <= j < i ==> is_ws(#[trigger] cs@[j]),
        decreases cs.len() - i,
    {
        if !is_whitespace(cs[i]) {
            return false;
        }
        i += 1;
    }
    true
}

/// Splits `s` into its whitespace-separated words.
pub fn split_whitespace(s: &str) -> (r: Vec<String>)
    ensures
        views(r@) == words(s@),
{
    let cs = chars_of(s);
    let mut done: Vec<String> = Vec::new();
    let mut cur: Vec<char> = Vec::new();
    let mut i: usize = 0;
    while i < cs.len()
        invariant
            i <= cs.len(),
            cs@ == s@,
            views(done@) == split_state(s@.take(i as int)).0,
            cur@ == split_state(s@.take(i as int)).1,
        decreases cs.len() - i,
    {
        let c = cs[i];
        proof {
            assert(s@.take(i + 1).drop_last() =~= s@.take(i as int));
        }
        if is_whitespace(c) {
            if cur.len() > 0 {
                let w = string_of(&cur);
                done.push(w);
                assert(views(done@) =~= split_state(s@.take(i as int)).0.push(cur@));
            }
            cur = Vec::new();
        } else {
            cur.push(c);
        }
        i += 1;
    }
    assert(s@.take(cs.len() as int) =~= s@);
    if cur.len() > 0 {
        let w = string_of(&cur);
        done.push(w);
        assert(views(done@) =~= split_state(s@).0.push(cur@));
    }
    done
}

/// Joins the texts of `list` with `sep` between neighbours.
pub fn join_strings(list: &Vec<String>, sep: &str) -> (r: String)
    ensures
        r@ == join(views(list@), sep@),
{
    let mut r = String::new();
    let ghost vs = views(list@);
    for i in 0..list.len()
        invariant
            vs == views(list@),
            r@ == join(vs.take(i as int), sep@),
    {
        assert(vs.take(i + 1).drop_last() =~= vs.take(i as int));
        if i != 0 {
            r.append(sep);
        }
        r.append(list[i].as_str());
    }
    assert(vs.take(list.len() as int) =~= vs);
    r
}

/// Appends the decimal rendering of `n` to `s`.
pub fn push_decimal(s: &mut String, n: u64)
    ensures
        final(s)@ == old(s)@ + decimal(n as nat),
    decreases n,
{
    if n >= 10 {
        push_decimal(s, n / 10);
    }
    let d: u8 = (n % 10) as u8;
    let c = (48u8 + d) as char;
    s.push(c);
    assert(final(s)@ =~= old(s)@ + decimal(n as nat));
}

/// The decimal rendering of `n`.
pub fn decimal_string(n: u64) -> (s: String)
    ensures
        s@ == decimal(n as nat),
{
    let mut s = String::new();
    push_decimal(&mut s, n);
    assert(s@ =~= decimal(n as nat));
    s
}


/// Appending a whitespace-free piece continues the word being read.
proof fn lemma_split_state_append_word(s: Seq<char>, w: Seq<char>)
    requires
        ws_free(w),
    ensures
        split_state(s + w) == (split_state(s).0, split_state(s).1 + w),
    decreases w.len(),
{
    if w.len() == 0 {
        assert(s + w =~= s);
        assert(split_state(s).1 + w =~= split_state(s).1);
    } else {
        let w0 = w.drop_last();
        lemma_split_state_append_word(s, w0);
        assert((s + w).drop_last() =~= s + w0);
        assert((s + w).last() == w.last());
        assert(split_state(s).1 + w =~= (split_state(s).1 + w0).push(w.last()));
    }
}

/// Ending in a separator closes the word being read.
proof fn lemma_split_state_append_ws(s: Seq<char>, c: char)
    requires
        is_ws(c),
    ensures
        split_state(s.push(c)) == (words(s), Seq::<char>::empty()),
{
    assert(s.push(c).drop_last() =~= s);
}

/// Splitting undoes joining with a space: a list of non-empty,
/// whitespace-free words joined by `' '` splits back into the same list.
pub proof fn lemma_words_of_join(list: Seq<Seq<char>>)
    requires
        well_formed_words(list),
    ensures
        words(join(list, seq![' '])) == list,
    decreases list.len(),
{
    if list.len() == 0 {
        assert(words(join(list, seq![' '])) =~= list);
    } else if list.len() == 1 {
        lemma_split_state_append_word(Seq::<char>::empty(), list[0]);
        assert(Seq::<char>::empty() + list[0] =~= list[0]);
        assert(Seq::<char>::empty() + list[0] =~= list[0]);
        assert(words(list[0]) =~= seq![list[0]]);
        assert(seq![list[0]] =~= list);
    } else {
        let init = list.drop_last();
        assert forall|i: int| 0 <= i < init.len() implies (#[trigger] init[i]).len() > 0 && ws_free(init[i]) by {
            assert(init[i] == list[i]);
        }
        lemma_words_of_join(init);
        let j = join(init, seq![' ']);
        lemma_split_state_append_ws(j, ' ');
        assert(list[list.len() - 1].len() > 0 && ws_free(list[list.len() - 1]));
        lemma_split_state_append_word(j.push(' '), list.last());
        assert(j + seq![' '] + list.last() =~= j.push(' ') + list.last());
        assert(Seq::<char>::empty() + list.last() =~= list.last());
        assert(init.push(list.last()) =~= list);
    }
}

/// Every word that splitting produces is non-empty and whitespace-free.
pub proof fn lemma_words_well_formed(s: Seq<char>)
    ensures
        well_formed_words(words(s)),
{
    lemma_split_state_well_formed(s);
}

proof fn lemma_split_state_well_formed(s: Seq<char>)
    ensures
        well_formed_words(split_state(s).0),
        ws_free(split_state(s).1),
    decreases s.len(),
{
    if s.len() > 0 {
        lemma_split_state_well_formed(s.drop_last());
        let prev = split_state(s.drop_last());
        if !is_ws(s.last()) {
            assert forall|i: int| 0 <= i < prev.1.push(s.last()).len() implies !is_ws(
                #[trigger] prev.1.push(s.last())[i],
            ) by {
                if i < prev.1.len() {
                    assert(prev.1.push(s.last())[i] == prev.1[i]);
                }
            }
        }
    }
}

/// Text that is all whitespace has no words.
pub proof fn lemma_blank_has_no_words(s: Seq<char>)
    requires
        all_ws(s),
    ensures
        words(s).len() == 0,
        split_state(s).0.len() == 0,
        split_state(s).1.len() == 0,
    decreases s.len(),
{
    if s.len() > 0 {
        assert(all_ws(s.drop_last())) by {
            assert forall|i: int| 0 <= i < s.drop_last().len() implies is_ws(
                #[trigger] s.drop_last()[i],
            ) by {
                assert(s.drop_last()[i] == s[i]);
            }
        }
        lemma_blank_has_no_words(s.drop_last());
        assert(is_ws(s[s.len() - 1]));
    }
}

/// Text with no words is all whitespace.
pub proof fn lemma_no_words_is_blank(s: Seq<char>)
    requires
        words(s).len() == 0,
    ensures
        all_ws(s),
    decreases s.len(),
{
    if s.len() > 0 {
        let prev = split_state(s.drop_last());
        lemma_split_state_len_mono(s);
        if !is_ws(s.last()) {
            assert(split_state(s).1.len() > 0);
            assert(false);
        }
        assert(prev.1.len() == 0);
        assert(words(s.drop_last()).len() == 0);
        lemma_no_words_is_blank(s.drop_last());
        assert forall|i: int| 0 <= i < s.len() implies is_ws(#[trigger] s[i]) by {
            if i < s.len() - 1 {
                assert(s[i] == s.drop_last()[i]);
            }
        }
    }
}

proof fn lemma_split_state_len_mono(s: Seq<char>)
    requires
        s.len() > 0,
    ensures
        split_state(s).0.len() >= split_state(s.drop_last()).0.len(),
        split_state(s.drop_last()).1.len() > 0 && is_ws(s.last()) ==> split_state(s).0.len()
            > split_state(s.drop_last()).0.len(),
{
}

} // verus!
