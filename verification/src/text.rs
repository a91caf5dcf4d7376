//! Two questions about text that are put to the standard library.

use vstd::prelude::*;
use crate::resolve::texts;

verus! {

/// The text without the white space at its beginning and its end, as `std`
/// trims it.
pub uninterp spec fn trimmed(text: Seq<char>) -> Seq<char>;

/// The lines of the text, as `std` splits it.
pub uninterp spec fn lines_of(text: Seq<char>) -> Seq<Seq<char>>;

/// Trims a text with `str::trim`.
///
/// Trusted: the outcome depends on the text alone, so it is given the name
/// [`trimmed`].
#[verifier::external_body]
pub(crate) fn trim(text: &str) -> (short: &str)
    ensures
        short@ == trimmed(text@),
{
    text.trim()
}

/// Splits a text into its lines with `str::lines`.
///
/// Trusted: the outcome depends on the text alone, so it is given the name
/// [`lines_of`].
#[verifier::external_body]
pub(crate) fn lines(text: &str) -> (found: Vec<String>)
    ensures
        texts(found@) == lines_of(text@),
{
    text.lines().map(String::from).collect()
}

} // verus!
