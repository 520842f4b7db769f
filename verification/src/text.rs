//! Character sequences: conversion from and to strings, searching and splitting.
//!
//! Every parser of this crate works on a slice of `char`s and is specified over
//! `Seq<char>`, the view that `str` and `String` have.

use vstd::prelude::*;

verus! {

/// `pat` stands in `s` at position `i`.
pub open spec fn occurs_at(s: Seq<char>, pat: Seq<char>, i: int) -> bool {
    &&& 0 <= i
    &&& i + pat.len() <= s.len()
    &&& forall|k: int| 0 <= k < pat.len() ==> s[i + k] == #[trigger] pat[k]
}

/// The first position at or after `from` where `pat` stands in `s`.
pub open spec fn first_occurrence_from(s: Seq<char>, pat: Seq<char>, from: int) -> Option<int>
    decreases s.len() - from,
{
    if from < 0 || from + pat.len() > s.len() {
        None
    } else if occurs_at(s, pat, from) {
        Some(from)
    } else {
        first_occurrence_from(s, pat, from + 1)
    }
}

/// The first position where `pat` stands in `s`.
pub open spec fn first_occurrence(s: Seq<char>, pat: Seq<char>) -> Option<int> {
    first_occurrence_from(s, pat, 0)
}

/// `s` holds `pat` somewhere.
pub open spec fn contains(s: Seq<char>, pat: Seq<char>) -> bool {
    first_occurrence(s, pat) is Some
}

/// What stands before and after the first occurrence of `pat` in `s`.
pub open spec fn split_first(s: Seq<char>, pat: Seq<char>) -> Option<(Seq<char>, Seq<char>)> {
    match first_occurrence(s, pat) {
        Some(i) => Some((s.subrange(0, i), s.subrange(i + pat.len(), s.len() as int))),
        None => None,
    }
}

/// `s` begins with `pat`.
pub open spec fn has_prefix(s: Seq<char>, pat: Seq<char>) -> bool {
    occurs_at(s, pat, 0)
}

/// A result at or after `from` is the least position with an occurrence.
pub proof fn lemma_first_occurrence_from(s: Seq<char>, pat: Seq<char>, from: int)
    requires
        0 <= from,
    ensures
        match first_occurrence_from(s, pat, from) {
            Some(i) => from <= i && occurs_at(s, pat, i) && forall|j: int|
                from <= j < i ==> !occurs_at(s, pat, j),
            None => forall|j: int| from <= j ==> !occurs_at(s, pat, j),
        },
    decreases s.len() - from,
{
    if from + pat.len() > s.len() {
    } else if occurs_at(s, pat, from) {
    } else {
        lemma_first_occurrence_from(s, pat, from + 1);
    }
}

/// The first occurrence is the least position with an occurrence.
pub proof fn lemma_first_occurrence(s: Seq<char>, pat: Seq<char>)
    ensures
        match first_occurrence(s, pat) {
            Some(i) => occurs_at(s, pat, i) && forall|j: int| 0 <= j < i ==> !occurs_at(s, pat, j),
            None => forall|j: int| !occurs_at(s, pat, j),
        },
{
    lemma_first_occurrence_from(s, pat, 0);
}

/// An occurrence with none before it is the first one.
pub proof fn lemma_first_occurrence_is(s: Seq<char>, pat: Seq<char>, i: int)
    requires
        occurs_at(s, pat, i),
        forall|j: int| 0 <= j < i ==> !occurs_at(s, pat, j),
    ensures
        first_occurrence(s, pat) == Some(i),
{
    lemma_first_occurrence(s, pat);
}

/// Without any occurrence there is no first one.
pub proof fn lemma_first_occurrence_none(s: Seq<char>, pat: Seq<char>)
    requires
        forall|j: int| !occurs_at(s, pat, j),
    ensures
        first_occurrence(s, pat) is None,
{
    lemma_first_occurrence(s, pat);
}

/// No occurrence of `pat` begins in `a` where `pat` follows `a`: `a` holds no
/// `pat`, and no end of `a` is a beginning of `pat` that the rest of `pat`
/// completes.
pub open spec fn free_before(a: Seq<char>, pat: Seq<char>) -> bool {
    !contains(a + pat.drop_last(), pat)
}

/// `pat` occurs where it was put.
pub proof fn lemma_occurs_between(a: Seq<char>, pat: Seq<char>, b: Seq<char>)
    ensures
        occurs_at(a + pat + b, pat, a.len() as int),
        (a + pat + b).subrange(0, a.len() as int) == a,
        (a + pat + b).subrange((a.len() + pat.len()) as int, (a + pat + b).len() as int) == b,
{
    let s = a + pat + b;
    assert forall|k: int| 0 <= k < pat.len() implies s[a.len() + k] == #[trigger] pat[k] by {
        assert((a + pat)[a.len() + k] == pat[k]);
    }
    assert(s.subrange(0, a.len() as int) =~= a);
    assert(s.subrange((a.len() + pat.len()) as int, s.len() as int) =~= b);
}

/// No occurrence of `pat` begins in a part that is free before it.
pub proof fn lemma_none_before(a: Seq<char>, pat: Seq<char>, b: Seq<char>, j: int)
    requires
        pat.len() > 0,
        free_before(a, pat),
        0 <= j < a.len(),
    ensures
        !occurs_at(a + pat + b, pat, j),
{
    let s = a + pat + b;
    let front = a + pat.drop_last();
    if occurs_at(s, pat, j) {
        assert forall|k: int| 0 <= k < pat.len() implies front[j + k] == #[trigger] pat[k] by {
            assert(s[j + k] == pat[k]);
            if j + k < a.len() {
                assert(s[j + k] == a[j + k]);
            } else {
                assert(s[j + k] == pat[j + k - a.len()]);
                assert(front[j + k] == pat.drop_last()[j + k - a.len()]);
            }
        }
        assert(occurs_at(front, pat, j));
        lemma_first_occurrence(front, pat);
    }
}

/// Where `pat` follows a part that is free before it, the sequence splits
/// there: into that part and what follows `pat`.
pub proof fn lemma_split_first_free(a: Seq<char>, pat: Seq<char>, b: Seq<char>)
    requires
        pat.len() > 0,
        free_before(a, pat),
    ensures
        first_occurrence(a + pat + b, pat) == Some(a.len() as int),
        split_first(a + pat + b, pat) == Some((a, b)),
{
    let s = a + pat + b;
    lemma_occurs_between(a, pat, b);
    assert forall|j: int| 0 <= j < a.len() implies !occurs_at(s, pat, j) by {
        lemma_none_before(a, pat, b, j);
    }
    lemma_first_occurrence_is(s, pat, a.len() as int);
}

/// What a sequence holds, it still holds when more is appended.
pub proof fn lemma_contains_extended(a: Seq<char>, b: Seq<char>, pat: Seq<char>)
    requires
        contains(a, pat),
    ensures
        contains(a + b, pat),
{
    lemma_first_occurrence(a, pat);
    lemma_first_occurrence(a + b, pat);
    let i = first_occurrence(a, pat)->Some_0;
    assert forall|k: int| 0 <= k < pat.len() implies (a + b)[i + k] == #[trigger] pat[k] by {
        assert((a + b)[i + k] == a[i + k]);
    }
    assert(occurs_at(a + b, pat, i));
}

/// A part that is free before `pat` holds no `pat`.
pub proof fn lemma_free_before_holds_none(a: Seq<char>, pat: Seq<char>)
    requires
        free_before(a, pat),
    ensures
        !contains(a, pat),
{
    if contains(a, pat) {
        lemma_contains_extended(a, pat.drop_last(), pat);
    }
}

/// A sequence without the character `c` holds no occurrence of the pattern
/// that is `c` alone, and the other way round.
pub proof fn lemma_contains_char(s: Seq<char>, c: char)
    ensures
        contains(s, seq![c]) <==> exists|i: int| 0 <= i < s.len() && s[i] == c,
{
    lemma_first_occurrence(s, seq![c]);
    if contains(s, seq![c]) {
        let i = first_occurrence(s, seq![c])->Some_0;
        assert(seq![c][0] == c);
        assert(s[i + 0] == c);
    }
    if exists|i: int| 0 <= i < s.len() && s[i] == c {
        let i = choose|i: int| 0 <= i < s.len() && s[i] == c;
        assert(occurs_at(s, seq![c], i));
    }
}

/// Copies the characters of `s` into a vector.
pub fn chars_of(s: &str) -> (v: Vec<char>)
    ensures
        v@ == s@,
{
    let mut v: Vec<char> = Vec::new();
    for c in it: s.chars()
        invariant
            v@ == it.seq().take(it.index() as int),
            it.seq() == s@,
    {
        v.push(c);
    }
    v
}

/// `String::push` of the standard library: appends one character to the string.
#[verifier::external_body]
fn push_char(s: &mut String, c: char)
    ensures
        final(s)@ == old(s)@.push(c),
{
    s.push(c)
}

/// Builds the string that holds the characters of `chars`.
pub fn string_of(chars: &[char]) -> (s: String)
    ensures
        s@ == chars@,
{
    let mut s = String::new();
    let mut i: usize = 0;
    while i < chars.len()
        invariant
            i <= chars.len(),
            s@ == chars@.take(i as int),
        decreases chars.len() - i,
    {
        push_char(&mut s, chars[i]);
        i += 1;
    }
    s
}

/// Tells whether `pat` stands in `s` at position `i`.
pub fn stands_at(s: &[char], pat: &[char], i: usize) -> (b: bool)
    ensures
        b == occurs_at(s@, pat@, i as int),
{
    let n = s.len();
    let m = pat.len();
    if m > n || i > n - m {
        return false;
    }
    let mut k: usize = 0;
    while k < m
        invariant
            k <= m,
            m == pat.len(),
            n == s.len(),
            i + m <= n,
            forall|j: int| 0 <= j < k ==> s@[i + j] == pat@[j],
        decreases m - k,
    {
        if s[i + k] != pat[k] {
            return false;
        }
        k += 1;
    }
    true
}

/// Tells whether `s` begins with `pat`.
pub fn starts_with(s: &[char], pat: &[char]) -> (b: bool)
    ensures
        b == has_prefix(s@, pat@),
{
    stands_at(s, pat, 0)
}

/// Finds the first position where `pat` stands in `s`.
pub fn find(s: &[char], pat: &[char]) -> (r: Option<usize>)
    ensures
        match r {
            Some(i) => first_occurrence(s@, pat@) == Some(i as int),
            None => first_occurrence(s@, pat@) is None,
        },
{
    let n = s.len();
    let m = pat.len();
    if m > n {
        return None;
    }
    let mut i: usize = 0;
    while i <= n - m
        invariant
            m <= n,
            n == s.len(),
            m == pat.len(),
            i <= n - m + 1,
            first_occurrence(s@, pat@) == first_occurrence_from(s@, pat@, i as int),
        decreases n - m + 1 - i,
    {
        if stands_at(s, pat, i) {
            return Some(i);
        }
        i += 1;
    }
    None
}

/// Splits `s` at the first occurrence of `pat`, which belongs to neither part.
pub fn split_once<'a>(s: &'a [char], pat: &[char]) -> (r: Option<(&'a [char], &'a [char])>)
    ensures
        match r {
            Some((before, after)) => split_first(s@, pat@) == Some((before@, after@)),
            None => split_first(s@, pat@) is None,
        },
{
    match find(s, pat) {
        Some(i) => {
            proof {
                lemma_first_occurrence(s@, pat@);
                assert(occurs_at(s@, pat@, i as int));
            }
            let n = s.len();
            let before = vstd::slice::slice_subrange(s, 0, i);
            let after = vstd::slice::slice_subrange(s, i + pat.len(), n);
            Some((before, after))
        },
        None => None,
    }
}

/// Tells whether `s` holds exactly the characters of the string `t`.
pub fn is_text(s: &[char], t: &str) -> (r: bool)
    ensures
        r == (s@ == t@),
{
    let n = s.len();
    let mut i: usize = 0;
    for c in it: t.chars()
        invariant
            it.seq() == t@,
            n == s.len(),
            i == it.index(),
            i <= n,
            forall|j: int| 0 <= j < i ==> s@[j] == t@[j],
    {
        if i >= n || s[i] != c {
            return false;
        }
        i += 1;
    }
    proof {
        if i == n {
            assert(s@ =~= t@);
        }
    }
    i == n
}

} // verus!
