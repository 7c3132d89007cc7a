//! The order of strings by character code, and sorted lists without repeats.

use crate::text::chars_of;
use crate::text::same_chars;
use vstd::prelude::*;

verus! {

/// `a` comes strictly before `b` when compared character by character, a
/// proper prefix coming before any of its extensions.
pub open spec fn lex_less(a: Seq<char>, b: Seq<char>) -> bool
    decreases a.len(),
{
    if b.len() == 0 {
        false
    } else if a.len() == 0 {
        true
    } else if a[0] != b[0] {
        a[0] < b[0]
    } else {
        lex_less(a.skip(1), b.skip(1))
    }
}

/// Every element comes strictly before all later ones.
pub open spec fn strictly_sorted(s: Seq<Seq<char>>) -> bool {
    forall|i: int, j: int| 0 <= i < j < s.len() ==> lex_less(s[i], s[j])
}

/// `out` holds exactly the elements of `input`, each once, in increasing order.
pub open spec fn is_sorted_set_of(out: Seq<Seq<char>>, input: Seq<Seq<char>>) -> bool {
    &&& strictly_sorted(out)
    &&& forall|x: Seq<char>| out.contains(x) <==> input.contains(x)
}

pub proof fn lemma_lex_total(a: Seq<char>, b: Seq<char>)
    ensures
        lex_less(a, b) || lex_less(b, a) || a == b,
        !(lex_less(a, b) && lex_less(b, a)),
        a == b ==> !lex_less(a, b),
    decreases a.len(),
{
    if a.len() == 0 || b.len() == 0 {
        if a.len() == 0 && b.len() == 0 {
            assert(a =~= b);
        }
    } else if a[0] == b[0] {
        lemma_lex_total(a.skip(1), b.skip(1));
        if a.skip(1) == b.skip(1) {
            assert(a =~= seq![a[0]] + a.skip(1));
            assert(b =~= seq![b[0]] + b.skip(1));
        }
        if a == b {
            assert(a.skip(1) == b.skip(1));
        }
    }
}

pub proof fn lemma_lex_transitive(a: Seq<char>, b: Seq<char>, c: Seq<char>)
    requires
        lex_less(a, b),
        lex_less(b, c),
    ensures
        lex_less(a, c),
    decreases a.len(),
{
    if a.len() > 0 && a[0] == b[0] && b[0] == c[0] {
        lemma_lex_transitive(a.skip(1), b.skip(1), c.skip(1));
    }
}

/// Two lists that are both the sorted set of the same input are the same list.
pub proof fn lemma_sorted_set_unique(a: Seq<Seq<char>>, b: Seq<Seq<char>>, input: Seq<Seq<char>>)
    requires
        is_sorted_set_of(a, input),
        is_sorted_set_of(b, input),
    ensures
        a == b,
    decreases a.len(),
{
    if a.len() == 0 {
        if b.len() > 0 {
            assert(b.contains(b[0]));
            assert(a.contains(b[0]));
        }
        assert(a =~= b);
    } else if b.len() == 0 {
        assert(a.contains(a[0]));
        assert(b.contains(a[0]));
    } else {
        // The largest element is last in both.
        let la = a.last();
        let lb = b.last();
        assert(a.contains(la));
        assert(b.contains(lb));
        assert(b.contains(la));
        assert(a.contains(lb));
        let ia = choose|i: int| 0 <= i < a.len() && a[i] == lb;
        let ib = choose|i: int| 0 <= i < b.len() && b[i] == la;
        lemma_lex_total(la, lb);
        if ia < a.len() - 1 {
            assert(lex_less(a[ia], a[a.len() - 1]));
        }
        if ib < b.len() - 1 {
            assert(lex_less(b[ib], b[b.len() - 1]));
        }
        assert(la == lb);
        let a0 = a.drop_last();
        let b0 = b.drop_last();
        let rest = a0;
        assert forall|x: Seq<char>| b0.contains(x) <==> rest.contains(x) by {
            if b0.contains(x) {
                let i = choose|i: int| 0 <= i < b0.len() && b0[i] == x;
                assert(b[i] == x);
                assert(lex_less(b[i], b[b.len() - 1]));
                lemma_lex_total(x, lb);
                assert(b.contains(x));
                assert(a.contains(x));
                let j = choose|j: int| 0 <= j < a.len() && a[j] == x;
                assert(j < a.len() - 1);
                assert(a0[j] == x);
            }
            if rest.contains(x) {
                let i = choose|i: int| 0 <= i < a0.len() && a0[i] == x;
                assert(a[i] == x);
                assert(lex_less(a[i], a[a.len() - 1]));
                lemma_lex_total(x, la);
                assert(a.contains(x));
                assert(b.contains(x));
                let j = choose|j: int| 0 <= j < b.len() && b[j] == x;
                assert(j < b.len() - 1);
                assert(b0[j] == x);
            }
        }
        assert(strictly_sorted(a0)) by {
            assert forall|i: int, j: int| 0 <= i < j < a0.len() implies lex_less(a0[i], a0[j]) by {
                assert(a0[i] == a[i] && a0[j] == a[j]);
            }
        }
        assert(strictly_sorted(b0)) by {
            assert forall|i: int, j: int| 0 <= i < j < b0.len() implies lex_less(b0[i], b0[j]) by {
                assert(b0[i] == b[i] && b0[j] == b[j]);
            }
        }
        lemma_sorted_set_unique(a0, b0, rest);
        assert(a =~= a0.push(la));
        assert(b =~= b0.push(lb));
    }
}

/// Whether `a` comes strictly before `b`.
pub fn comes_before(a: &Vec<char>, b: &Vec<char>) -> (r: bool)
    ensures
        r == lex_less(a@, b@),
{
    let mut i: usize = 0;
    assert(a@.skip(0) =~= a@ && b@.skip(0) =~= b@);
    loop
        invariant
            i <= a.len(),
            i <= b.len(),
            lex_less(a@, b@) == lex_less(a@.skip(i as int), b@.skip(i as int)),
        decreases a.len() - i,
    {
        let ghost ra = a@.skip(i as int);
        let ghost rb = b@.skip(i as int);
        if i == b.len() {
            return false;
        }
        if i == a.len() {
            return true;
        }
        proof {
            assert(ra[0] == a@[i as int]);
            assert(rb[0] == b@[i as int]);
            assert(ra.skip(1) =~= a@.skip(i + 1));
            assert(rb.skip(1) =~= b@.skip(i + 1));
        }
        if a[i] != b[i] {
            return a[i] < b[i];
        }
        i += 1;
    }
}

/// The distinct strings of `items` in increasing order.
pub fn sorted_unique(items: &Vec<String>) -> (out: Vec<String>)
    ensures
        is_sorted_set_of(out.deep_view(), items.deep_view()),
{
    let mut out: Vec<String> = Vec::new();
    let mut k: usize = 0;
    while k < items.len()
        invariant
            k <= items.len(),
            is_sorted_set_of(out.deep_view(), items.deep_view().take(k as int)),
        decreases items.len() - k,
    {
        let ghost before = out.deep_view();
        let ghost seen = items.deep_view().take(k as int);
        let item = chars_of(items[k].as_str());
        let ghost x = items@[k as int]@;
        let mut at: usize = 0;
        while at < out.len() && comes_before(&chars_of(out[at].as_str()), &item)
            invariant
                at <= out.len(),
                item@ == x,
                out.deep_view() == before,
                forall|i: int| 0 <= i < at ==> lex_less(before[i], x),
            decreases out.len() - at,
        {
            at += 1;
        }
        let present = at < out.len() && same_chars(&chars_of(out[at].as_str()), &item);
        if !present {
            out.insert(at, items[k].clone());
        }
        proof {
            let after = out.deep_view();
            let seen2 = items.deep_view().take(k + 1);
            assert(seen2 =~= seen.push(x));
            if present {
                assert(after == before);
                assert(before[at as int] == x);
            } else {
                assert(after =~= before.insert(at as int, x));
                assert forall|i: int, j: int| 0 <= i < j < after.len() implies lex_less(
                    after[i],
                    after[j],
                ) by {
                    if j == at {
                    } else if i == at {
                        // x comes before what followed the insertion point.
                        lemma_lex_total(before[at as int], x);
                        if j - 1 > at {
                            lemma_lex_transitive(x, before[at as int], before[j - 1]);
                        }
                    } else if i < at && j > at {
                        assert(lex_less(before[i], before[j - 1]));
                    } else if i < at {
                        assert(lex_less(before[i], before[j]));
                    } else {
                        assert(lex_less(before[i - 1], before[j - 1]));
                    }
                }
                assert(after[at as int] == x);
            }
            assert forall|y: Seq<char>| after.contains(y) <==> seen2.contains(y) by {
                if after.contains(y) {
                    let i = choose|i: int| 0 <= i < after.len() && after[i] == y;
                    if y != x {
                        if present {
                            assert(before.contains(y));
                        } else if i < at {
                            assert(before[i] == y);
                            assert(before.contains(y));
                        } else {
                            assert(before[i - 1] == y);
                            assert(before.contains(y));
                        }
                        let j = choose|j: int| 0 <= j < seen.len() && seen[j] == y;
                        assert(seen2[j] == y);
                    } else {
                        assert(seen2[k as int] == x);
                    }
                }
                if seen2.contains(y) {
                    let j = choose|j: int| 0 <= j < seen2.len() && seen2[j] == y;
                    if j < k {
                        assert(seen[j] == y);
                        assert(seen.contains(y));
                        let i = choose|i: int| 0 <= i < before.len() && before[i] == y;
                        if present {
                        } else if i < at {
                            assert(after[i] == y);
                        } else {
                            assert(after[i + 1] == y);
                        }
                    } else {
                        assert(y == x);
                        if present {
                            assert(before[at as int] == x);
                        } else {
                            assert(after[at as int] == x);
                        }
                    }
                }
            }
        }
        k += 1;
    }
    assert(items.deep_view().take(k as int) =~= items.deep_view());
    out
}

} // verus!
