use vstd::prelude::*;

use unicode_segmentation::UnicodeSegmentation;

verus! {

/// The number of Unicode words of a character sequence: the number of pieces
/// that splitting on UAX #29 word boundaries yields which contain at least
/// one alphabetic or numeric character. Named, not written out: the
/// segmentation rules live in the outside crate, and the result is a
/// function of the text alone.
pub uninterp spec fn word_count(s: Seq<char>) -> nat;

/// Relies on unicode_segmentation's `unicode_words`: an iterator over the
/// words of the text under locale-independent UAX #29 rules, a pure function
/// of the text.
#[verifier::external_body]
pub(crate) fn count_words(text: &str) -> (r: u64)
    ensures
        r as nat == word_count(text@),
{
    text.unicode_words().count() as u64
}

} // verus!
