//! Lower-casing.

use vstd::prelude::*;
use vstd::utf8::is_ascii_chars;
use crate::text::whitespace::is_whitespace;

verus! {

/// The Unicode lower-case form of a text that is not pure ASCII.
///
/// Unicode case mapping is table-driven and context-sensitive; this crate
/// only gives it a name. On ASCII text [`lowercase`] says what it is.
pub uninterp spec fn unicode_lowercase(s: Seq<char>) -> Seq<char>;

/// `c` with `A`..`Z` mapped to `a`..`z`.
pub open spec fn ascii_lower(c: char) -> char {
    if 'A' <= c <= 'Z' {
        ((c as u32) + 32) as char
    } else {
        c
    }
}

/// `s` with every character mapped by [`ascii_lower`].
pub open spec fn ascii_lowercase(s: Seq<char>) -> Seq<char> {
    Seq::new(s.len(), |i: int| ascii_lower(s[i]))
}

/// The lower-case form of `s`.
pub open spec fn lowercase(s: Seq<char>) -> Seq<char> {
    if is_ascii_chars(s) {
        ascii_lowercase(s)
    } else {
        unicode_lowercase(s)
    }
}

/// Calls `str::to_lowercase`.
///
/// Trusted: the result is the Unicode lower-case form of `s`. For text made
/// of ASCII characters only, that is `s` with `A`..`Z` replaced by `a`..`z`
/// and every other character kept; for any other text the result is only
/// named.
#[verifier::external_body]
pub(crate) fn to_lowercase(s: &str) -> (r: String)
    ensures
        is_ascii_chars(s@) ==> r@ == ascii_lowercase(s@),
        !is_ascii_chars(s@) ==> r@ == unicode_lowercase(s@),
{
    s.to_lowercase()
}

/// Lower-casing ASCII text keeps it ASCII, keeps its length, and keeps
/// whitespace where it was.
pub proof fn lemma_ascii_lowercase(s: Seq<char>)
    requires
        is_ascii_chars(s),
    ensures
        lowercase(s) == ascii_lowercase(s),
        is_ascii_chars(lowercase(s)),
        lowercase(s).len() == s.len(),
        forall|i: int|
            0 <= i < s.len() ==> is_whitespace(#[trigger] lowercase(s)[i]) == is_whitespace(s[i]),
        lowercase(lowercase(s)) == lowercase(s),
{
    let l = ascii_lowercase(s);
    assert(is_ascii_chars(l));
    assert(ascii_lowercase(l) =~= l);
}

/// ASCII text without capital letters is its own lower-case form.
pub proof fn lemma_lowercase_fixed(s: Seq<char>)
    requires
        is_ascii_chars(s),
        forall|i: int| 0 <= i < s.len() ==> !('A' <= #[trigger] s[i] <= 'Z'),
    ensures
        lowercase(s) == s,
{
    assert(ascii_lowercase(s) =~= s);
}

} // verus!
