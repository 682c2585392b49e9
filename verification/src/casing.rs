//! Title casing of ASCII letters: the first letter of each word in upper
//! case, the letters after it in lower case.
//!
//! A word starts at the start of the text and after every ASCII character
//! that is no letter. Characters outside ASCII are left as they are and start
//! no word.

use vstd::prelude::*;

verus! {

/// Whether `c` is one of `a`–`z`.
pub open spec fn is_ascii_lower(c: char) -> bool {
    'a' <= c && c <= 'z'
}

/// Whether `c` is one of `A`–`Z`.
pub open spec fn is_ascii_upper(c: char) -> bool {
    'A' <= c && c <= 'Z'
}

/// Whether `c` is an ASCII letter.
pub open spec fn is_ascii_letter(c: char) -> bool {
    is_ascii_lower(c) || is_ascii_upper(c)
}

/// `c` in upper case, if it is an ASCII letter; else `c`.
pub open spec fn upper_of(c: char) -> char {
    if is_ascii_lower(c) {
        ((c as u32) - 32) as char
    } else {
        c
    }
}

/// `c` in lower case, if it is an ASCII letter; else `c`.
pub open spec fn lower_of(c: char) -> char {
    if is_ascii_upper(c) {
        ((c as u32) + 32) as char
    } else {
        c
    }
}

/// Whether a word starts after `c`: `c` is ASCII and no letter.
pub open spec fn ends_word(c: char) -> bool {
    (c as u32) < 0x80 && !is_ascii_letter(c)
}

/// Whether a word starts at position `i` of `text`.
pub open spec fn starts_word(text: Seq<char>, i: int) -> bool {
    i == 0 || ends_word(text[i - 1])
}

/// The character at position `i` of the title-cased `text`.
pub open spec fn title_case_at(text: Seq<char>, i: int) -> char {
    if starts_word(text, i) {
        upper_of(text[i])
    } else {
        lower_of(text[i])
    }
}

/// `text` in title case.
pub open spec fn title_case(text: Seq<char>) -> Seq<char> {
    Seq::new(text.len(), |i: int| title_case_at(text, i))
}

/// `c` in upper case, if it is an ASCII letter.
pub fn to_upper(c: char) -> (r: char)
    ensures
        r == upper_of(c),
{
    if 'a' <= c && c <= 'z' {
        ((c as u8) - 32) as char
    } else {
        c
    }
}

/// `c` in lower case, if it is an ASCII letter.
pub fn to_lower(c: char) -> (r: char)
    ensures
        r == lower_of(c),
{
    if 'A' <= c && c <= 'Z' {
        ((c as u8) + 32) as char
    } else {
        c
    }
}

/// Whether a word starts after `c`.
pub fn is_word_end(c: char) -> (r: bool)
    ensures
        r == ends_word(c),
{
    c <= '\x7f' && !(('a' <= c && c <= 'z') || ('A' <= c && c <= 'Z'))
}

/// Puts `s` in title case: `"FOO BAR"` becomes `"Foo Bar"`.
pub fn ascii_string_to_title_case(s: String) -> (r: String)
    ensures
        r@ == title_case(s@),
        r@.len() == s@.len(),
{
    let text: &str = s.as_str();
    let mut out = String::new();
    let mut at_start: bool = true;
    for c in it: text.chars()
        invariant
            it.seq() == text@,
            at_start == starts_word(text@, it.index() as int),
            out@ == title_case(text@).subrange(0, it.index() as int),
    {
        let shown: char = if at_start {
            to_upper(c)
        } else {
            to_lower(c)
        };
        out.push(shown);
        at_start = is_word_end(c);
        assert(out@ =~= title_case(text@).subrange(0, it.index() + 1));
    }
    assert(out@ =~= title_case(s@));
    out
}

/// Title casing changes ASCII letters only, and only their case: the text
/// keeps its length, and each character is the one before in upper or lower
/// case. After the start of the text and after an ASCII character that is no
/// letter, a letter is in upper case; every other letter is in lower case.
pub proof fn lemma_title_case_shape(text: Seq<char>, i: int)
    requires
        0 <= i < text.len(),
    ensures
        title_case(text).len() == text.len(),
        !is_ascii_letter(text[i]) ==> title_case(text)[i] == text[i],
        is_ascii_letter(text[i]) && starts_word(text, i) ==> is_ascii_upper(title_case(text)[i]),
        is_ascii_letter(text[i]) && !starts_word(text, i) ==> is_ascii_lower(title_case(text)[i]),
        upper_of(title_case(text)[i]) == upper_of(text[i]),
{
}

/// Title casing a text that is in title case changes nothing.
pub proof fn lemma_title_case_idempotent(text: Seq<char>)
    ensures
        title_case(title_case(text)) == title_case(text),
{
    let once = title_case(text);
    assert forall|i: int| 0 <= i < text.len() implies title_case_at(once, i) == title_case_at(
        text,
        i,
    ) by {
        if i > 0 {
            assert(ends_word(once[i - 1]) == ends_word(text[i - 1]));
        }
    }
    assert(title_case(once) =~= once);
}

/// The empty text in title case is the empty text.
pub proof fn lemma_title_case_empty()
    ensures
        title_case(Seq::<char>::empty()) == Seq::<char>::empty(),
{
    assert(title_case(Seq::<char>::empty()) =~= Seq::<char>::empty());
}

} // verus!
