//! The UTF-8 and UTF-16 encodings of a single scalar value.

use vstd::prelude::*;
use vstd::utf8::{
    char_is_scalar, decode_utf8, encode_scalar, encode_utf8, encode_utf8_decode_utf8,
    encode_utf8_valid_utf8, valid_utf8,
};

verus! {

/// The UTF-8 bytes of `c`, in order.
pub open spec fn utf8_of(c: char) -> Seq<u8> {
    encode_scalar(c as u32)
}

/// How many bytes the UTF-8 encoding of `c` takes.
pub open spec fn utf8_len(c: char) -> nat {
    if (c as u32) < 0x80 {
        1
    } else if (c as u32) < 0x800 {
        2
    } else if (c as u32) < 0x10000 {
        3
    } else {
        4
    }
}

/// The UTF-16 code units of `c`, in order: the value itself in the basic
/// plane, else a high and a low surrogate.
pub open spec fn utf16_of(c: char) -> Seq<u16> {
    if (c as u32) < 0x10000 {
        seq![(c as u32) as u16]
    } else {
        seq![
            (0xD800 + ((c as u32) - 0x10000) / 0x400) as u16,
            (0xDC00 + ((c as u32) - 0x10000) % 0x400) as u16,
        ]
    }
}

/// How many code units the UTF-16 encoding of `c` takes.
pub open spec fn utf16_len(c: char) -> nat {
    if (c as u32) < 0x10000 {
        1
    } else {
        2
    }
}

/// Whether `u` is a high (leading) surrogate.
pub open spec fn is_high_surrogate(u: u16) -> bool {
    0xD800 <= u <= 0xDBFF
}

/// Whether `u` is a low (trailing) surrogate.
pub open spec fn is_low_surrogate(u: u16) -> bool {
    0xDC00 <= u <= 0xDFFF
}

/// The scalar value that a well-formed sequence of one or two UTF-16 code
/// units stands for.
pub open spec fn utf16_value(units: Seq<u16>) -> int {
    if units.len() == 1 {
        units[0] as int
    } else {
        0x10000 + (units[0] - 0xD800) * 0x400 + (units[1] - 0xDC00)
    }
}

/// Encodes `c` in UTF-8.
pub fn utf8_bytes(c: char) -> (bytes: Vec<u8>)
    ensures
        bytes@ == utf8_of(c),
        bytes@.len() == utf8_len(c),
        1 <= bytes@.len() <= 4,
{
    let v: u32 = c as u32;
    let mut bytes: Vec<u8> = Vec::new();
    proof {
        char_is_scalar(c);
    }
    if v < 0x80 {
        assert(v & 0x7F < 0x100) by (bit_vector);
        bytes.push((v & 0x7F) as u8);
    } else if v < 0x800 {
        assert((v >> 6) & 0x1F < 0x100 && v & 0x3F < 0x100) by (bit_vector);
        bytes.push(0xC0 | ((v >> 6) & 0x1F) as u8);
        bytes.push(0x80 | (v & 0x3F) as u8);
    } else if v < 0x10000 {
        assert((v >> 12) & 0x0F < 0x100 && (v >> 6) & 0x3F < 0x100 && v & 0x3F < 0x100)
            by (bit_vector);
        bytes.push(0xE0 | ((v >> 12) & 0x0F) as u8);
        bytes.push(0x80 | ((v >> 6) & 0x3F) as u8);
        bytes.push(0x80 | (v & 0x3F) as u8);
    } else {
        assert((v >> 18) & 0x7 < 0x100 && (v >> 12) & 0x3F < 0x100 && (v >> 6) & 0x3F < 0x100 && v
            & 0x3F < 0x100) by (bit_vector);
        bytes.push(0xF0 | ((v >> 18) & 0x7) as u8);
        bytes.push(0x80 | ((v >> 12) & 0x3F) as u8);
        bytes.push(0x80 | ((v >> 6) & 0x3F) as u8);
        bytes.push(0x80 | (v & 0x3F) as u8);
    }
    assert(bytes@ =~= utf8_of(c));
    bytes
}

/// Encodes `c` in UTF-16.
pub fn utf16_units(c: char) -> (units: Vec<u16>)
    ensures
        units@ == utf16_of(c),
        units@.len() == utf16_len(c),
        1 <= units@.len() <= 2,
{
    let v: u32 = c as u32;
    let mut units: Vec<u16> = Vec::new();
    if v < 0x10000 {
        units.push(v as u16);
    } else {
        let rest: u32 = v - 0x10000;
        units.push((0xD800 + rest / 0x400) as u16);
        units.push((0xDC00 + rest % 0x400) as u16);
    }
    assert(units@ =~= utf16_of(c));
    units
}

/// The UTF-16 encoding loses nothing: a scalar in the basic plane is its own
/// single unit, which is no surrogate; any other becomes a high surrogate
/// followed by a low one; and either way the units give the scalar back.
pub proof fn lemma_utf16_faithful(c: char)
    ensures
        utf16_of(c).len() == utf16_len(c),
        utf16_len(c) == 1 ==> !is_high_surrogate(utf16_of(c)[0]) && !is_low_surrogate(
            utf16_of(c)[0],
        ),
        utf16_len(c) == 2 ==> is_high_surrogate(utf16_of(c)[0]) && is_low_surrogate(
            utf16_of(c)[1],
        ),
        utf16_value(utf16_of(c)) == c as u32,
{
}

/// The UTF-8 encoding of a scalar has one byte below U+0080, two below
/// U+0800, three below U+10000 and four from there on.
pub proof fn lemma_utf8_len(c: char)
    ensures
        utf8_of(c).len() == utf8_len(c),
        1 <= utf8_len(c) <= 4,
{
    char_is_scalar(c);
}

/// The UTF-8 encoding loses nothing: the bytes of a scalar are well-formed
/// UTF-8 and decode to that scalar alone.
pub proof fn lemma_utf8_faithful(c: char)
    ensures
        valid_utf8(utf8_of(c)),
        decode_utf8(utf8_of(c)) == seq![c],
{
    let text = seq![c];
    assert(text.drop_first() =~= Seq::<char>::empty());
    assert(encode_utf8(text) =~= utf8_of(c)) by {
        reveal_with_fuel(encode_utf8, 2);
    }
    encode_utf8_valid_utf8(text);
    encode_utf8_decode_utf8(text);
}

/// The UTF-8 encoding of each scalar of `text`, in order.
pub open spec fn utf8_of_each(text: Seq<char>) -> Seq<Seq<u8>> {
    Seq::new(text.len(), |i: int| utf8_of(text[i]))
}

/// The encodings of the scalars of a text, joined in order, are the UTF-8
/// encoding of the text.
pub proof fn lemma_utf8_of_text(text: Seq<char>)
    ensures
        utf8_of_each(text).flatten() == encode_utf8(text),
    decreases text.len(),
{
    if text.len() > 0 {
        lemma_utf8_of_text(text.drop_first());
        assert(utf8_of_each(text).drop_first() =~= utf8_of_each(text.drop_first()));
    }
}

} // verus!
