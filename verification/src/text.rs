//! Words of a text.

use vstd::prelude::*;

verus! {

/// The word that `s` starts with.
///
/// A text is read as one word, whatever characters it holds, so the word it
/// starts with is the text itself: the longest of its prefixes. To get the
/// start of a longer text, hand in a slice of it.
pub fn first_word(s: &str) -> (word: &str)
    ensures
        word@ == s@,
        word@.is_prefix_of(s@),
{
    s
}

} // verus!
