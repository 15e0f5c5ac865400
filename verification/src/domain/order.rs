//! Lexicographic order on character sequences (code point by code point,
//! the order of `str`), and sorted sets of such sequences.
use vstd::prelude::*;

verus! {

/// `a` sorts before `b`, comparing from position `i` on.
pub open spec fn lex_lt_from(a: Seq<char>, b: Seq<char>, i: int) -> bool
    decreases a.len() - i,
{
    if i < 0 || i >= a.len() {
        0 <= i < b.len()
    } else if i >= b.len() {
        false
    } else if a[i] != b[i] {
        a[i] < b[i]
    } else {
        lex_lt_from(a, b, i + 1)
    }
}

/// `a` sorts strictly before `b` in lexicographic code point order.
pub open spec fn lex_lt(a: Seq<char>, b: Seq<char>) -> bool {
    lex_lt_from(a, b, 0)
}

/// Each item sorts strictly before every later one (so no item repeats).
pub open spec fn strictly_sorted(l: Seq<Seq<char>>) -> bool {
    forall|i: int, j: int| 0 <= i < j < l.len() ==> lex_lt(#[trigger] l[i], #[trigger] l[j])
}

/// The texts of a vector of character vectors.
pub open spec fn vviews(v: Seq<Vec<char>>) -> Seq<Seq<char>> {
    v.map_values(|w: Vec<char>| w@)
}

pub proof fn lemma_lex_irreflexive(a: Seq<char>, i: int)
    requires
        0 <= i <= a.len(),
    ensures
        !lex_lt_from(a, a, i),
    decreases a.len() - i,
{
    if i < a.len() {
        lemma_lex_irreflexive(a, i + 1);
    }
}

pub proof fn lemma_lex_transitive(a: Seq<char>, b: Seq<char>, c: Seq<char>, i: int)
    requires
        0 <= i,
        lex_lt_from(a, b, i),
        lex_lt_from(b, c, i),
    ensures
        lex_lt_from(a, c, i),
    decreases a.len() - i,
{
    if i < a.len() && i < b.len() && i < c.len() && a[i] == b[i] && b[i] == c[i] {
        lemma_lex_transitive(a, b, c, i + 1);
    }
}

pub proof fn lemma_lex_total(a: Seq<char>, b: Seq<char>, i: int)
    requires
        0 <= i <= a.len(),
        i <= b.len(),
        !lex_lt_from(a, b, i),
        !lex_lt_from(b, a, i),
    ensures
        a.skip(i) == b.skip(i),
    decreases a.len() - i,
{
    if i == a.len() {
        assert(a.skip(i) =~= b.skip(i));
    } else {
        assert(i < b.len());
        assert(a[i] == b[i]);
        lemma_lex_total(a, b, i + 1);
        assert(a.skip(i + 1).len() == b.skip(i + 1).len());
        assert(a.len() == b.len());
        assert(a.skip(i) =~= b.skip(i)) by {
            assert forall|k: int| 0 <= k < a.skip(i).len() implies a.skip(i)[k] == b.skip(i)[k] by {
                if k > 0 {
                    assert(a.skip(i)[k] == a.skip(i + 1)[k - 1]);
                    assert(b.skip(i)[k] == b.skip(i + 1)[k - 1]);
                } else {
                    assert(a.skip(i)[k] == a[i]);
                    assert(b.skip(i)[k] == b[i]);
                }
            }
        }
    }
}

/// Lexicographic order is a strict total order.
pub proof fn lemma_lex_order(a: Seq<char>, b: Seq<char>)
    ensures
        !lex_lt(a, a),
        lex_lt(a, b) ==> !lex_lt(b, a),
        a != b ==> lex_lt(a, b) || lex_lt(b, a),
{
    lemma_lex_irreflexive(a, 0);
    if lex_lt(a, b) && lex_lt(b, a) {
        lemma_lex_transitive(a, b, a, 0);
    }
    if !lex_lt(a, b) && !lex_lt(b, a) {
        lemma_lex_total(a, b, 0);
        assert(a.skip(0) =~= a);
        assert(b.skip(0) =~= b);
    }
}

/// Two strictly sorted lists with the same items are the same list.
pub proof fn lemma_sorted_unique(l1: Seq<Seq<char>>, l2: Seq<Seq<char>>)
    requires
        strictly_sorted(l1),
        strictly_sorted(l2),
        l1.to_set() == l2.to_set(),
    ensures
        l1 == l2,
    decreases l1.len(),
{
    if l1.len() == 0 {
        if l2.len() > 0 {
            assert(l2.to_set().contains(l2[0]));
        }
        assert(l1 =~= l2);
    } else {
        assert(l1.to_set().contains(l1[0]));
        assert(l2.len() > 0);
        assert(l2.to_set().contains(l2[0]));
        let k = choose|k: int| 0 <= k < l2.len() && l2[k] == l1[0];
        let m = choose|m: int| 0 <= m < l1.len() && l1[m] == l2[0];
        if l1[0] != l2[0] {
            assert(k > 0 && m > 0);
            assert(lex_lt(l1[0], l1[m]));
            assert(lex_lt(l2[0], l2[k]));
            lemma_lex_order(l1[0], l2[0]);
            assert(false);
        }
        let t1 = l1.drop_first();
        let t2 = l2.drop_first();
        assert(strictly_sorted(t1)) by {
            assert forall|i: int, j: int| 0 <= i < j < t1.len() implies lex_lt(
                #[trigger] t1[i],
                #[trigger] t1[j],
            ) by {
                assert(t1[i] == l1[i + 1] && t1[j] == l1[j + 1]);
            }
        }
        assert(strictly_sorted(t2)) by {
            assert forall|i: int, j: int| 0 <= i < j < t2.len() implies lex_lt(
                #[trigger] t2[i],
                #[trigger] t2[j],
            ) by {
                assert(t2[i] == l2[i + 1] && t2[j] == l2[j + 1]);
            }
        }
        assert(t1.to_set() =~= t2.to_set()) by {
            assert forall|x: Seq<char>| t1.to_set().contains(x) implies t2.to_set().contains(x) by {
                let i = choose|i: int| 0 <= i < t1.len() && t1[i] == x;
                assert(l1[i + 1] == x);
                assert(l1.to_set().contains(x));
                let j = choose|j: int| 0 <= j < l2.len() && l2[j] == x;
                if j == 0 {
                    assert(lex_lt(l1[0], l1[i + 1]));
                    lemma_lex_order(x, x);
                }
                assert(t2[j - 1] == x);
            }
            assert forall|x: Seq<char>| t2.to_set().contains(x) implies t1.to_set().contains(x) by {
                let i = choose|i: int| 0 <= i < t2.len() && t2[i] == x;
                assert(l2[i + 1] == x);
                assert(l2.to_set().contains(x));
                let j = choose|j: int| 0 <= j < l1.len() && l1[j] == x;
                if j == 0 {
                    assert(lex_lt(l2[0], l2[i + 1]));
                    lemma_lex_order(x, x);
                }
                assert(t1[j - 1] == x);
            }
        }
        lemma_sorted_unique(t1, t2);
        assert(l1 =~= l2) by {
            assert forall|i: int| 0 <= i < l1.len() implies l1[i] == l2[i] by {
                if i > 0 {
                    assert(l1[i] == t1[i - 1]);
                    assert(l2[i] == t2[i - 1]);
                }
            }
        }
    }
}

/// Whether `a` sorts strictly before `b`.
pub fn lex_less(a: &Vec<char>, b: &Vec<char>) -> (r: bool)
    ensures
        r == lex_lt(a@, b@),
{
    let mut i: usize = 0;
    while i < a.len() && i < b.len()
        invariant
            i <= a.len(),
            i <= b.len(),
            lex_lt(a@, b@) == lex_lt_from(a@, b@, i as int),
        decreases a.len() - i,
    {
        if a[i] != b[i] {
            return a[i] < b[i];
        }
        i += 1;
    }
    i < b.len()
}

/// Whether `a` and `b` hold the same characters.
pub fn chars_equal(a: &Vec<char>, b: &Vec<char>) -> (r: bool)
    ensures
        r == (a@ == b@),
{
    if a.len() != b.len() {
        return false;
    }
    let mut i: usize = 0;
    while i < a.len()
        invariant
            i <= a.len(),
            a.len() == b.len(),
            forall|k: int| 0 <= k < i ==> a@[k] == b@[k],
        decreases a.len() - i,
    {
        if a[i] != b[i] {
            return false;
        }
        i += 1;
    }
    assert(a@ =~= b@);
    true
}

/// Adds `g` to a strictly sorted list of sequences, keeping it strictly
/// sorted; a sequence already present is not added again.
pub fn insert_sorted(list: &mut Vec<Vec<char>>, g: Vec<char>)
    requires
        strictly_sorted(vviews(old(list)@)),
    ensures
        strictly_sorted(vviews(final(list)@)),
        vviews(final(list)@).to_set() == vviews(old(list)@).to_set().insert(g@),
{
    let ghost old_v = vviews(list@);
    let mut k: usize = 0;
    while k < list.len() && lex_less(&list[k], &g)
        invariant
            k <= list.len(),
            old_v == vviews(list@),
            forall|i: int| 0 <= i < k ==> lex_lt(#[trigger] old_v[i], g@),
        decreases list.len() - k,
    {
        k += 1;
    }
    if k < list.len() && chars_equal(&list[k], &g) {
        assert(old_v.to_set().insert(g@) =~= old_v.to_set()) by {
            assert(old_v[k as int] == g@);
        }
        return;
    }
    // Every item from position k on sorts strictly after g.
    assert forall|i: int| k <= i < old_v.len() implies lex_lt(g@, #[trigger] old_v[i]) by {
        lemma_lex_order(old_v[k as int], g@);
        if i > k {
            lemma_lex_transitive(g@, old_v[k as int], old_v[i], 0);
        }
    }
    list.insert(k, g);
    let ghost new_v = vviews(list@);
    assert(new_v =~= old_v.insert(k as int, g@));
    assert forall|i: int, j: int| 0 <= i < j < new_v.len() implies lex_lt(
        #[trigger] new_v[i],
        #[trigger] new_v[j],
    ) by {
        if j < k {
        } else if j == k {
        } else if i < k {
            lemma_lex_transitive(new_v[i], g@, new_v[j], 0);
        } else if i == k {
        } else {
            assert(new_v[i] == old_v[i - 1] && new_v[j] == old_v[j - 1]);
        }
    }
    assert(new_v.to_set() =~= old_v.to_set().insert(g@)) by {
        assert forall|x: Seq<char>| new_v.to_set().contains(x) implies old_v.to_set().insert(g@).contains(x) by {
            let i = choose|i: int| 0 <= i < new_v.len() && new_v[i] == x;
            if i < k {
                assert(old_v[i] == x);
            } else if i > k {
                assert(old_v[i - 1] == x);
            }
        }
        assert forall|x: Seq<char>| old_v.to_set().insert(g@).contains(x) implies new_v.to_set().contains(x) by {
            if x == g@ {
                assert(new_v[k as int] == x);
            } else {
                let i = choose|i: int| 0 <= i < old_v.len() && old_v[i] == x;
                if i < k {
                    assert(new_v[i] == x);
                } else {
                    assert(new_v[i + 1] == x);
                }
            }
        }
    }
}

} // verus!
