//! Strings as sequences of scalars, and what is taken from the standard
//! library about them.

use vstd::prelude::*;

verus! {

/// Whether `c` is white space to the standard library.
pub uninterp spec fn std_white_space(c: char) -> bool;

/// `String::push` appends the given character to the end of the string and
/// leaves the characters before it as they were.
pub assume_specification[ String::push ](s: &mut String, ch: char)
    ensures
        final(s)@ == old(s)@.push(ch),
;

/// `char::is_whitespace` is a function of the scalar alone. Which scalars it
/// accepts is left to the standard library.
pub assume_specification[ char::is_whitespace ](c: char) -> (b: bool)
    ensures
        b == std_white_space(c),
;

/// The text of each string of `strings`, in order.
pub open spec fn views(strings: Seq<String>) -> Seq<Seq<char>> {
    Seq::new(strings.len(), |i: int| strings[i]@)
}

/// The text of `s`, if there is one.
pub open spec fn view_of(s: Option<String>) -> Option<Seq<char>> {
    match s {
        Some(s) => Some(s@),
        None => None,
    }
}

/// The text of each string of `strings`, if there are any.
pub open spec fn views_of(strings: Option<Vec<String>>) -> Option<Seq<Seq<char>>> {
    match strings {
        Some(v) => Some(views(v@)),
        None => None,
    }
}

/// Whether no text of `parts` is empty.
pub open spec fn all_non_empty(parts: Seq<Seq<char>>) -> bool {
    forall|i: int| 0 <= i < parts.len() ==> (#[trigger] parts[i]).len() > 0
}

/// Texts of which none is empty are, joined, at least as long as they are
/// many.
pub proof fn lemma_parts_at_most_scalars(parts: Seq<Seq<char>>)
    requires
        all_non_empty(parts),
    ensures
        parts.len() <= parts.flatten().len(),
    decreases parts.len(),
{
    if parts.len() > 0 {
        let rest = parts.drop_first();
        assert forall|i: int| 0 <= i < rest.len() implies (#[trigger] rest[i]).len() > 0 by {
            assert(rest[i] == parts[i + 1]);
        }
        lemma_parts_at_most_scalars(rest);
        assert(parts.first().len() > 0);
    }
}

} // verus!
