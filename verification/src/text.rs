//! Comparing string slices.

use vstd::prelude::*;

verus! {

/// The lower-case form of an ASCII letter; any other character unchanged.
pub open spec fn ascii_lower(c: char) -> char {
    if 'A' <= c && c <= 'Z' {
        ((c as u32) + 32) as char
    } else {
        c
    }
}

/// A text with each ASCII upper-case letter replaced by its lower-case form.
pub open spec fn ascii_fold(s: Seq<char>) -> Seq<char> {
    Seq::new(s.len(), |i: int| ascii_lower(s[i]))
}

/// Trusted: `str`'s `==` from the standard library, which holds exactly when
/// both slices are the same sequence of characters.
#[verifier::external_body]
pub(crate) fn str_eq(a: &str, b: &str) -> (r: bool)
    ensures
        r == (a@ == b@),
{
    a == b
}

/// Trusted: `str::eq_ignore_ascii_case` from the standard library. Its
/// documentation defines the result as the equality of both slices after
/// `A`..=`Z` are mapped to `a`..=`z` and every other character is kept.
#[verifier::external_body]
pub(crate) fn str_eq_ignore_ascii_case(a: &str, b: &str) -> (r: bool)
    ensures
        r == (ascii_fold(a@) == ascii_fold(b@)),
{
    a.eq_ignore_ascii_case(b)
}

/// The lower-case form of a text by the rules of Unicode, as the standard
/// library computes it.
pub uninterp spec fn lowercase(s: Seq<char>) -> Seq<char>;

/// Trusted: `str::to_lowercase` from the standard library, which returns
/// the lower-case equivalent of the slice as a new `String`. The result
/// depends on the characters of the slice alone.
#[verifier::external_body]
pub(crate) fn to_lowercase(s: &str) -> (r: String)
    ensures
        r@ == lowercase(s@),
{
    s.to_lowercase()
}

} // verus!
