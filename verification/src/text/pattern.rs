//! Prefixes, suffixes and substrings.

use vstd::prelude::*;
use crate::text::whitespace::chars_of;

verus! {

/// Whether `s` starts with `p`.
pub open spec fn has_prefix(s: Seq<char>, p: Seq<char>) -> bool {
    p.len() <= s.len() && s.take(p.len() as int) == p
}

/// Whether `s` ends with `p`.
pub open spec fn has_suffix(s: Seq<char>, p: Seq<char>) -> bool {
    p.len() <= s.len() && s.skip(s.len() - p.len()) == p
}

/// Whether `p` occurs in `s` at index `i`.
pub open spec fn occurs_at(s: Seq<char>, p: Seq<char>, i: int) -> bool {
    0 <= i && i + p.len() <= s.len() && s.subrange(i, i + p.len()) == p
}

/// Whether `p` occurs somewhere in `s`.
pub open spec fn contains(s: Seq<char>, p: Seq<char>) -> bool {
    exists|i: int| occurs_at(s, p, i)
}

/// Whether `p` occurs in `chars` at index `i`.
pub(crate) fn matches_at(chars: &Vec<char>, p: &Vec<char>, i: usize) -> (r: bool)
    requires
        i + p.len() <= chars.len(),
    ensures
        r == occurs_at(chars@, p@, i as int),
{
    let mut k: usize = 0;
    while k < p.len()
        invariant
            k <= p.len(),
            i + p.len() <= chars.len(),
            forall|j: int| 0 <= j < k ==> chars@[i + j] == p@[j],
        decreases p.len() - k,
    {
        if chars[i + k] != p[k] {
            assert(chars@.subrange(i as int, i + p.len())[k as int] != p@[k as int]);
            return false;
        }
        k = k + 1;
    }
    assert(chars@.subrange(i as int, i + p.len()) =~= p@);
    true
}

/// Whether `s` starts with `p`.
pub fn starts_with(s: &str, p: &str) -> (r: bool)
    ensures
        r == has_prefix(s@, p@),
{
    let chars = chars_of(s);
    let pat = chars_of(p);
    if pat.len() > chars.len() {
        return false;
    }
    assert(chars@.subrange(0, 0 + pat.len()) =~= chars@.take(pat.len() as int));
    matches_at(&chars, &pat, 0)
}

/// Whether `s` ends with `p`.
pub fn ends_with(s: &str, p: &str) -> (r: bool)
    ensures
        r == has_suffix(s@, p@),
{
    let chars = chars_of(s);
    let pat = chars_of(p);
    if pat.len() > chars.len() {
        return false;
    }
    let i = chars.len() - pat.len();
    assert(chars@.subrange(i as int, i + pat.len()) =~= chars@.skip(chars.len() - pat.len()));
    matches_at(&chars, &pat, i)
}

/// Whether `p` occurs somewhere in `chars`.
pub(crate) fn contains_chars(chars: &Vec<char>, p: &Vec<char>) -> (r: bool)
    ensures
        r == contains(chars@, p@),
{
    if p.len() > chars.len() {
        assert(!contains(chars@, p@));
        return false;
    }
    let last = chars.len() - p.len();
    let mut i: usize = 0;
    while i < last
        invariant
            last == chars.len() - p.len(),
            i <= last,
            forall|j: int| 0 <= j < i ==> !occurs_at(chars@, p@, j),
        decreases last - i,
    {
        if matches_at(chars, p, i) {
            return true;
        }
        i = i + 1;
    }
    matches_at(chars, p, last)
}

/// Whether `p` occurs somewhere in `s`.
pub fn contains_str(s: &str, p: &str) -> (r: bool)
    ensures
        r == contains(s@, p@),
{
    let chars = chars_of(s);
    let pat = chars_of(p);
    contains_chars(&chars, &pat)
}

} // verus!
