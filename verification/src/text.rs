//! Character-level helpers shared by the parsing code.
//!
//! Everything here is stated over the `Seq<char>` view of a string, so that
//! callers can reason about positions in characters rather than bytes.

use vstd::prelude::*;
use vstd::string::*;

verus! {

/// The lower-case form that the standard library gives a string.
pub uninterp spec fn lowercase(s: Seq<char>) -> Seq<char>;

/// Two strings are the same once both are put in lower case.
pub open spec fn same_ignoring_case(a: Seq<char>, b: Seq<char>) -> bool {
    lowercase(a) == lowercase(b)
}

/// `str::to_lowercase`: every character is replaced by its Unicode lower-case
/// mapping. The mapping tables are not modelled; the result is taken on trust
/// to depend on the input alone.
#[verifier::external_body]
pub(crate) fn to_lowercase(s: &str) -> (r: String)
    ensures
        r@ == lowercase(s@),
{
    s.to_lowercase()
}

/// Whether two strings are the same once both are put in lower case.
pub fn eq_ignoring_case(a: &str, b: &str) -> (r: bool)
    ensures
        r == same_ignoring_case(a@, b@),
{
    to_lowercase(a) == to_lowercase(b)
}

/// Whether the lower-case form of `s` is `expected`.
pub fn lowercase_is(s: &str, expected: &str) -> (r: bool)
    ensures
        r == (lowercase(s@) == expected@),
{
    str_eq(to_lowercase(s).as_str(), expected)
}

/// `needle` occurs in `hay` starting at character position `at`.
pub open spec fn occurs_at(hay: Seq<char>, needle: Seq<char>, at: int) -> bool {
    &&& 0 <= at
    &&& at + needle.len() <= hay.len()
    &&& hay.subrange(at, at + needle.len()) == needle
}

/// `needle` occurs somewhere in `hay`.
pub open spec fn occurs_in(hay: Seq<char>, needle: Seq<char>) -> bool {
    exists|at: int| occurs_at(hay, needle, at)
}

/// `s` begins with `prefix`.
pub open spec fn starts_with(s: Seq<char>, prefix: Seq<char>) -> bool {
    occurs_at(s, prefix, 0)
}

/// Position of the first occurrence of `needle` in `hay` at or after
/// `from`, or `-1` if there is none.
pub open spec fn index_of(hay: Seq<char>, needle: Seq<char>, from: int) -> int
    decreases hay.len() - from + 1,
{
    if from < 0 || from + needle.len() > hay.len() {
        -1
    } else if occurs_at(hay, needle, from) {
        from
    } else {
        index_of(hay, needle, from + 1)
    }
}

/// What stands before the first occurrence of `needle` in `s`; all of `s`
/// where there is none.
pub open spec fn before_first(s: Seq<char>, needle: Seq<char>) -> Seq<char> {
    if index_of(s, needle, 0) < 0 {
        s
    } else {
        s.take(index_of(s, needle, 0))
    }
}

/// Position of the first `c` in `s` at or after `from`; `s.len()` if there is none.
pub open spec fn first_index_from(s: Seq<char>, c: char, from: int) -> int
    decreases s.len() - from,
{
    if from < 0 || from >= s.len() {
        s.len() as int
    } else if s[from] == c {
        from
    } else {
        first_index_from(s, c, from + 1)
    }
}

/// Position of the last `c` in `s` strictly before `end`; `-1` if there is none.
pub open spec fn last_index_before(s: Seq<char>, c: char, end: int) -> int
    decreases end,
{
    if end <= 0 || end > s.len() {
        -1
    } else if s[end - 1] == c {
        end - 1
    } else {
        last_index_before(s, c, end - 1)
    }
}

/// The pieces of `s` between occurrences of `sep`, left to right.
/// A string without `sep` is a single piece; empty pieces are kept.
pub open spec fn split(s: Seq<char>, sep: char) -> Seq<Seq<char>>
    decreases s.len(),
{
    let cut = last_index_before(s, sep, s.len() as int);
    if 0 <= cut < s.len() {
        split(s.take(cut), sep).push(s.skip(cut + 1))
    } else {
        seq![s]
    }
}

pub proof fn lemma_first_index_from(s: Seq<char>, c: char, from: int)
    requires
        0 <= from <= s.len(),
    ensures
        from <= first_index_from(s, c, from) <= s.len(),
        first_index_from(s, c, from) < s.len() ==> s[first_index_from(s, c, from)] == c,
        forall|k: int| from <= k < first_index_from(s, c, from) ==> s[k] != c,
    decreases s.len() - from,
{
    if from < s.len() && s[from] != c {
        lemma_first_index_from(s, c, from + 1);
    }
}

pub proof fn lemma_last_index_before(s: Seq<char>, c: char, end: int)
    requires
        0 <= end <= s.len(),
    ensures
        -1 <= last_index_before(s, c, end) < end,
        last_index_before(s, c, end) >= 0 ==> s[last_index_before(s, c, end)] == c,
        forall|k: int| last_index_before(s, c, end) < k < end ==> s[k] != c,
    decreases end,
{
    if end > 0 && s[end - 1] != c {
        lemma_last_index_before(s, c, end - 1);
    }
}

/// The characters of a string, one element per character.
pub fn chars_of(s: &str) -> (v: Vec<char>)
    ensures
        v@ == s@,
{
    let mut v: Vec<char> = Vec::new();
    for c in it: s.chars()
        invariant
            v@ == it.seq().take(it.index()),
    {
        v.push(c);
    }
    v
}

/// The characters `from..to` of `s` as an owned string.
pub fn substring(s: &str, from: usize, to: usize) -> (r: String)
    requires
        from <= to <= s@.len(),
    ensures
        r@ == s@.subrange(from as int, to as int),
{
    s.substring_char(from, to).to_string()
}

/// Whether `needle` occurs in `hay` at position `at`.
pub fn matches_at(hay: &Vec<char>, needle: &Vec<char>, at: usize) -> (r: bool)
    ensures
        r == occurs_at(hay@, needle@, at as int),
{
    if at > hay.len() || needle.len() > hay.len() - at {
        return false;
    }
    let mut k: usize = 0;
    while k < needle.len()
        invariant
            k <= needle.len(),
            at + needle.len() <= hay.len(),
            forall|j: int| 0 <= j < k ==> hay@[at + j] == needle@[j],
        decreases needle.len() - k,
    {
        if hay[at + k] != needle[k] {
            proof {
                let sub = hay@.subrange(at as int, at + needle@.len());
                assert(sub[k as int] == hay@[at + k]);
            }
            return false;
        }
        k += 1;
    }
    assert(hay@.subrange(at as int, at + needle@.len()) =~= needle@);
    true
}

/// Whether `s` begins with `prefix`.
pub fn has_prefix(s: &Vec<char>, prefix: &Vec<char>) -> (r: bool)
    ensures
        r == starts_with(s@, prefix@),
{
    matches_at(s, prefix, 0)
}

/// Whether `needle` occurs anywhere in `hay`.
pub fn contains(hay: &Vec<char>, needle: &Vec<char>) -> (r: bool)
    ensures
        r == occurs_in(hay@, needle@),
{
    if needle.len() > hay.len() {
        return false;
    }
    let last: usize = hay.len() - needle.len();
    let mut at: usize = 0;
    loop
        invariant
            at <= last,
            last == hay.len() - needle.len(),
            forall|j: int| 0 <= j < at ==> !occurs_at(hay@, needle@, j),
        decreases last - at,
    {
        if matches_at(hay, needle, at) {
            return true;
        }
        if at == last {
            return false;
        }
        at += 1;
    }
}

/// Whether two character vectors hold the same characters.
pub fn same_chars(a: &Vec<char>, b: &Vec<char>) -> (r: bool)
    ensures
        r == (a@ == b@),
{
    if a.len() != b.len() {
        return false;
    }
    let r = matches_at(a, b, 0);
    assert(a@.subrange(0, a@.len() as int) =~= a@);
    r
}

/// Whether two strings hold the same characters.
pub fn str_eq(a: &str, b: &str) -> (r: bool)
    ensures
        r == (a@ == b@),
{
    same_chars(&chars_of(a), &chars_of(b))
}

/// Whether `needle` occurs anywhere in `hay`.
pub fn str_contains(hay: &str, needle: &str) -> (r: bool)
    ensures
        r == occurs_in(hay@, needle@),
{
    contains(&chars_of(hay), &chars_of(needle))
}

/// Whether `s` begins with `prefix`.
pub fn str_starts_with(s: &str, prefix: &str) -> (r: bool)
    ensures
        r == starts_with(s@, prefix@),
{
    has_prefix(&chars_of(s), &chars_of(prefix))
}

/// Position of the first occurrence of `needle` in `hay`, if any.
pub fn find_str(hay: &Vec<char>, needle: &Vec<char>) -> (r: Option<usize>)
    ensures
        match r {
            Some(at) => at as int == index_of(hay@, needle@, 0) && at + needle@.len() <= hay@.len(),
            None => index_of(hay@, needle@, 0) == -1,
        },
{
    if needle.len() > hay.len() {
        return None;
    }
    let last: usize = hay.len() - needle.len();
    let mut at: usize = 0;
    loop
        invariant
            at <= last,
            last == hay.len() - needle.len(),
            index_of(hay@, needle@, 0) == index_of(hay@, needle@, at as int),
        decreases last - at,
    {
        if matches_at(hay, needle, at) {
            return Some(at);
        }
        if at == last {
            assert(index_of(hay@, needle@, at + 1) == -1);
            return None;
        }
        at += 1;
    }
}

/// What stands before the first occurrence of `needle` in `s`.
pub fn prefix_before(s: &str, needle: &str) -> (r: String)
    ensures
        r@ == before_first(s@, needle@),
{
    match find_str(&chars_of(s), &chars_of(needle)) {
        Some(at) => substring(s, 0, at),
        None => s.to_string(),
    }
}

/// Position of the first `c` at or after `from`, or the length if there is none.
pub fn find_from(s: &Vec<char>, c: char, from: usize) -> (r: usize)
    requires
        from <= s.len(),
    ensures
        r as int == first_index_from(s@, c, from as int),
        from <= r <= s.len(),
{
    let mut at: usize = from;
    while at < s.len()
        invariant
            from <= at <= s.len(),
            first_index_from(s@, c, from as int) == first_index_from(s@, c, at as int),
        decreases s.len() - at,
    {
        if s[at] == c {
            return at;
        }
        at += 1;
    }
    at
}

/// Position of the last `c` strictly before `end`, if any.
pub fn rfind_before(s: &Vec<char>, c: char, end: usize) -> (r: Option<usize>)
    requires
        end <= s.len(),
    ensures
        match r {
            Some(at) => at as int == last_index_before(s@, c, end as int) && at < end,
            None => last_index_before(s@, c, end as int) == -1,
        },
{
    let mut at: usize = end;
    while at > 0
        invariant
            at <= end <= s.len(),
            last_index_before(s@, c, end as int) == last_index_before(s@, c, at as int),
        decreases at,
    {
        if s[at - 1] == c {
            return Some(at - 1);
        }
        at -= 1;
    }
    None
}

/// The views of `v`, last element first.
pub open spec fn backwards(v: Seq<String>) -> Seq<Seq<char>> {
    Seq::new(v.len(), |i: int| v[v.len() - 1 - i]@)
}

/// Splits `s` at every `sep`, keeping empty pieces.
pub fn split_on(s: &str, sep: char) -> (parts: Vec<String>)
    ensures
        parts.deep_view() == split(s@, sep),
{
    let chars = chars_of(s);
    // Pieces are found from the right and collected in reverse.
    let mut reversed: Vec<String> = Vec::new();
    let mut end: usize = chars.len();
    assert(s@.take(end as int) =~= s@);
    assert(split(s@, sep) + backwards(reversed@) =~= split(s@, sep));
    loop
        invariant_except_break
            chars@ == s@,
            end <= chars.len(),
            split(s@, sep) == split(s@.take(end as int), sep) + backwards(reversed@),
        ensures
            split(s@, sep) == backwards(reversed@),
        decreases end,
    {
        let ghost head = s@.take(end as int);
        let ghost tail = backwards(reversed@);
        proof {
            lemma_last_index_agrees(s@, sep, end as int);
            lemma_last_index_before(s@, sep, end as int);
        }
        match rfind_before(&chars, sep, end) {
            Some(cut) => {
                let piece = substring(s, cut + 1, end);
                reversed.push(piece);
                proof {
                    assert(head.skip(cut + 1) =~= s@.subrange(cut + 1, end as int));
                    assert(head.take(cut as int) =~= s@.take(cut as int));
                    assert(backwards(reversed@) =~= seq![piece@] + tail);
                    assert(split(head, sep) == split(s@.take(cut as int), sep).push(piece@));
                    assert(split(s@.take(cut as int), sep).push(piece@) + tail =~= split(
                        s@.take(cut as int),
                        sep,
                    ) + backwards(reversed@));
                }
                end = cut;
            },
            None => {
                let piece = substring(s, 0, end);
                reversed.push(piece);
                proof {
                    assert(piece@ =~= head);
                    assert(split(head, sep) == seq![head]);
                    assert(backwards(reversed@) =~= seq![piece@] + tail);
                }
                break;
            },
        }
    }
    let ghost target = split(s@, sep);
    let mut parts: Vec<String> = Vec::new();
    let mut k: usize = reversed.len();
    while k > 0
        invariant
            k <= reversed.len(),
            target == backwards(reversed@),
            parts@.len() == reversed@.len() - k,
            forall|i: int| 0 <= i < parts@.len() ==> parts@[i]@ == target[i],
        decreases k,
    {
        k -= 1;
        parts.push(reversed[k].clone());
    }
    assert(parts.deep_view() =~= target);
    parts
}

/// Cutting a string off at `end` does not change where the last separator before `end` is.
pub proof fn lemma_last_index_agrees(s: Seq<char>, c: char, end: int)
    requires
        0 <= end <= s.len(),
    ensures
        last_index_before(s.take(end), c, end) == last_index_before(s, c, end),
{
    lemma_last_index_prefix(s, c, end, end);
}

proof fn lemma_last_index_prefix(s: Seq<char>, c: char, end: int, k: int)
    requires
        0 <= k <= end <= s.len(),
    ensures
        last_index_before(s.take(end), c, k) == last_index_before(s, c, k),
    decreases k,
{
    if k > 0 && s[k - 1] != c {
        lemma_last_index_prefix(s, c, end, k - 1);
    }
}

/// Two pieces without a separator, joined by one, split into those two.
pub proof fn lemma_split_once(a: Seq<char>, b: Seq<char>, sep: char)
    requires
        forall|i: int| 0 <= i < a.len() ==> a[i] != sep,
        forall|i: int| 0 <= i < b.len() ==> b[i] != sep,
    ensures
        split(a + seq![sep] + b, sep) == seq![a, b],
{
    let s = a + seq![sep] + b;
    let cut = a.len() as int;
    assert(s[cut] == sep);
    assert forall|k: int| cut < k < s.len() implies s[k] != sep by {
        assert(s[k] == b[k - cut - 1]);
    }
    lemma_last_index_before(s, sep, s.len() as int);
    let found = last_index_before(s, sep, s.len() as int);
    assert(found == cut) by {
        if found < cut {
            assert(s[cut] != sep);
        }
    }
    assert(s.take(cut) =~= a);
    assert(s.skip(cut + 1) =~= b);
    lemma_last_index_before(a, sep, a.len() as int);
    let inner = last_index_before(a, sep, a.len() as int);
    assert(inner < 0) by {
        if inner >= 0 {
            assert(a[inner] == sep);
        }
    }
    assert(split(a, sep) == seq![a]);
    assert(seq![a].push(b) =~= seq![a, b]);
}

} // verus!
