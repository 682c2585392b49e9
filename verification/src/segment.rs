//! Splitting text at word boundaries and at the boundaries of extended
//! grapheme clusters.
//!
//! Where the boundaries lie is decided by the segmentation engine of the
//! `unic` crate. The library relies on three things about it: the segments
//! of a text depend on the text alone; joined in order, they give the text
//! back; and none of them is empty.

use vstd::prelude::*;
use crate::text::{all_non_empty, lemma_parts_at_most_scalars, views};

verus! {

/// The segments between the word boundaries of `text`, in order. Runs of
/// white space and punctuation are segments like any other.
pub uninterp spec fn word_bounds_of(text: Seq<char>) -> Seq<Seq<char>>;

/// The extended grapheme clusters of `text`, in order.
pub uninterp spec fn graphemes_of(text: Seq<char>) -> Seq<Seq<char>>;

/// Whether a segment between two word boundaries is kept: every one is.
pub fn keeps_segment(segment: &&str) -> (keep: bool)
    ensures
        keep,
{
    true
}

/// `unic::segment::Words::new` with `keeps_segment` as its filter, which
/// keeps every segment, run to its end. The iterator cuts each segment off
/// the front of what is left of the text, so the segments follow one another
/// without gap or overlap and end where the text ends. Each cut takes at
/// least one scalar, so no segment is empty.
#[verifier::external_body]
pub(crate) fn split_words(text: &str) -> (segments: Vec<String>)
    ensures
        views(segments@) == word_bounds_of(text@),
        views(segments@).flatten() == text@,
        all_non_empty(views(segments@)),
{
    unic::segment::Words::new(text, keeps_segment)
        .map(|segment| segment.to_string())
        .collect()
}

/// `unic::segment::Graphemes::new`, run to its end. Each cluster is the
/// slice from the cursor to the next boundary, and the cursor goes from the
/// start of the text to its end, so the clusters follow one another without
/// gap or overlap. The cursor moves past at least one scalar before it
/// stops at a boundary, so no cluster is empty.
#[verifier::external_body]
pub(crate) fn split_graphemes(text: &str) -> (segments: Vec<String>)
    ensures
        views(segments@) == graphemes_of(text@),
        views(segments@).flatten() == text@,
        all_non_empty(views(segments@)),
{
    unic::segment::Graphemes::new(text).map(|segment| segment.to_string()).collect()
}

/// The word-level segments of `text`. None is dropped: joined in order they
/// are `text`. None is empty, so there are at most as many as `text` has
/// scalars, and an empty text has none.
pub fn segment_words(text: &str) -> (segments: Vec<String>)
    ensures
        views(segments@) == word_bounds_of(text@),
        views(segments@).flatten() == text@,
        all_non_empty(views(segments@)),
        segments@.len() <= text@.len(),
        text@.len() == 0 ==> segments@.len() == 0,
{
    let segments = split_words(text);
    proof {
        lemma_parts_at_most_scalars(views(segments@));
    }
    segments
}

/// The extended grapheme clusters of `word`. Joined in order they are
/// `word`. None is empty, so there are at most as many as `word` has
/// scalars, and an empty word has none.
pub fn segment_graphemes(word: &str) -> (segments: Vec<String>)
    ensures
        views(segments@) == graphemes_of(word@),
        views(segments@).flatten() == word@,
        all_non_empty(views(segments@)),
        segments@.len() <= word@.len(),
        word@.len() == 0 ==> segments@.len() == 0,
{
    let segments = split_graphemes(word);
    proof {
        lemma_parts_at_most_scalars(views(segments@));
    }
    segments
}

} // verus!
