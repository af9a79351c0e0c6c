//! What the tools need of text: equality of string slices, and the notion of
//! one text occurring inside another.

use vstd::prelude::*;

verus! {

/// Whether `phrase` occurs in `text` as a run of consecutive characters.
pub open spec fn mentions(text: Seq<char>, phrase: Seq<char>) -> bool {
    exists|at: int|
        0 <= at && at + phrase.len() <= text.len() && #[trigger] text.subrange(
            at,
            at + phrase.len(),
        ) == phrase
}

/// A text mentions the phrase that stands in it at position `at`.
pub proof fn lemma_mentions_at(text: Seq<char>, phrase: Seq<char>, at: int)
    requires
        0 <= at,
        at + phrase.len() <= text.len(),
        text.subrange(at, at + phrase.len()) == phrase,
    ensures
        mentions(text, phrase),
{
}

/// Every text mentions itself.
pub proof fn lemma_mentions_itself(text: Seq<char>)
    ensures
        mentions(text, text),
{
    assert(text.subrange(0, text.len() as int) =~= text);
    lemma_mentions_at(text, text, 0);
}

/// The `==` of `str`, which std defines as equality of the two slices'
/// contents: the result is true exactly when both hold the same characters.
#[verifier::external_body]
pub(crate) fn same_text(left: &str, right: &str) -> (same: bool)
    ensures
        same == (left@ == right@),
{
    left == right
}

} // verus!
