//! Positional notation: the hexadecimal and decimal digit strings of a number.

use vstd::prelude::*;

verus! {

/// The character that stands for the digit `d` (below sixteen): `0`–`9`, then
/// `A`–`F` or `a`–`f`.
pub open spec fn digit_char(d: nat, upper: bool) -> char {
    if d < 10 {
        (0x30 + d) as char
    } else if upper {
        (0x41 + d - 10) as char
    } else {
        (0x61 + d - 10) as char
    }
}

/// One less than `width`, and zero for zero.
pub open spec fn narrower(width: nat) -> nat {
    if width > 0 {
        (width - 1) as nat
    } else {
        0
    }
}

/// The hexadecimal digits of `n`, most significant first, padded on the left
/// with zeros to at least `width` digits. Zero has the one digit `0`.
pub open spec fn hex_text(n: nat, width: nat, upper: bool) -> Seq<char>
    decreases n, width,
{
    if n < 16 && width <= 1 {
        seq![digit_char(n, upper)]
    } else {
        hex_text(n / 16, narrower(width), upper).push(digit_char(n % 16, upper))
    }
}

/// The decimal digits of `n`, most significant first, without padding.
pub open spec fn decimal_text(n: nat) -> Seq<char>
    decreases n,
{
    if n < 10 {
        seq![digit_char(n, true)]
    } else {
        decimal_text(n / 10).push(digit_char(n % 10, true))
    }
}

/// The number of digits in `hex_text(n, width, _)`.
pub open spec fn hex_len(n: nat, width: nat) -> nat
    decreases n, width,
{
    if n < 16 && width <= 1 {
        1
    } else {
        hex_len(n / 16, narrower(width)) + 1
    }
}

/// A digit string is as long as `hex_len` says, whatever the letter case, and
/// never shorter than the width asked for.
pub proof fn lemma_hex_text_len(n: nat, width: nat, upper: bool)
    ensures
        hex_text(n, width, upper).len() == hex_len(n, width),
        hex_len(n, width) >= width,
        hex_len(n, width) >= 1,
    decreases n, width,
{
    if n < 16 && width <= 1 {
    } else {
        lemma_hex_text_len(n / 16, narrower(width), upper);
    }
}

/// The digit that `c` stands for, in either letter case; zero for a
/// character that is no digit.
pub open spec fn digit_value(c: char) -> nat {
    if '0' <= c && c <= '9' {
        (c as nat - 0x30) as nat
    } else if 'A' <= c && c <= 'F' {
        (c as nat - 0x41 + 10) as nat
    } else if 'a' <= c && c <= 'f' {
        (c as nat - 0x61 + 10) as nat
    } else {
        0
    }
}

/// Whether `c` is a hexadecimal digit of the given letter case.
pub open spec fn is_hex_digit(c: char, upper: bool) -> bool {
    ('0' <= c && c <= '9') || (upper && 'A' <= c && c <= 'F') || (!upper && 'a' <= c && c <= 'f')
}

/// The number that the digit string `text` stands for in the given base.
pub open spec fn digits_value(text: Seq<char>, base: nat) -> nat
    decreases text.len(),
{
    if text.len() == 0 {
        0
    } else {
        digits_value(text.drop_last(), base) * base + digit_value(text.last())
    }
}

/// The hexadecimal digits of a number are digits of the letter case asked
/// for, and read back they give the number.
pub proof fn lemma_hex_text_value(n: nat, width: nat, upper: bool)
    ensures
        digits_value(hex_text(n, width, upper), 16) == n,
        forall|i: int|
            0 <= i < hex_text(n, width, upper).len() ==> is_hex_digit(
                #[trigger] hex_text(n, width, upper)[i],
                upper,
            ),
    decreases n, width,
{
    let text = hex_text(n, width, upper);
    if n < 16 && width <= 1 {
        assert(text.drop_last() =~= Seq::<char>::empty());
        assert(digits_value(text.drop_last(), 16) == 0);
    } else {
        let rest = hex_text(n / 16, narrower(width), upper);
        lemma_hex_text_value(n / 16, narrower(width), upper);
        assert(text.drop_last() =~= rest);
        assert(text.last() == digit_char(n % 16, upper));
        assert forall|i: int| 0 <= i < text.len() implies is_hex_digit(#[trigger] text[i], upper) by {
            if i < rest.len() {
                assert(text[i] == rest[i]);
            }
        }
    }
}

/// The decimal digits of a number are among `0`–`9`, start with no zero
/// unless the number is zero, and read back they give the number.
pub proof fn lemma_decimal_text_value(n: nat)
    ensures
        digits_value(decimal_text(n), 10) == n,
        decimal_text(n).len() >= 1,
        n > 0 ==> decimal_text(n)[0] != '0',
        forall|i: int|
            0 <= i < decimal_text(n).len() ==> '0' <= #[trigger] decimal_text(n)[i] <= '9',
    decreases n,
{
    let text = decimal_text(n);
    if n < 10 {
        assert(text.drop_last() =~= Seq::<char>::empty());
        assert(digits_value(text.drop_last(), 10) == 0);
    } else {
        let rest = decimal_text(n / 10);
        lemma_decimal_text_value(n / 10);
        assert(text.drop_last() =~= rest);
        assert(text.last() == digit_char(n % 10, true));
        assert(text[0] == rest[0]);
        assert forall|i: int| 0 <= i < text.len() implies '0' <= #[trigger] text[i] <= '9' by {
            if i < rest.len() {
                assert(text[i] == rest[i]);
            }
        }
    }
}

/// The character for one digit.
pub fn digit_to_char(d: u8, upper: bool) -> (c: char)
    requires
        d < 16,
    ensures
        c == digit_char(d as nat, upper),
{
    if d < 10 {
        (0x30u8 + d) as char
    } else if upper {
        (0x41u8 + d - 10) as char
    } else {
        (0x61u8 + d - 10) as char
    }
}

/// Appends the hexadecimal digits of `n` to `out`, padded to `width`.
pub fn push_hex(out: &mut String, n: u32, width: usize, upper: bool)
    ensures
        final(out)@ == old(out)@ + hex_text(n as nat, width as nat, upper),
    decreases n, width,
{
    if n < 16 && width <= 1 {
        out.push(digit_to_char(n as u8, upper));
    } else {
        let rest: usize = if width > 0 {
            width - 1
        } else {
            0
        };
        push_hex(out, n / 16, rest, upper);
        out.push(digit_to_char((n % 16) as u8, upper));
    }
}

/// Appends the decimal digits of `n` to `out`.
pub fn push_decimal(out: &mut String, n: u16)
    ensures
        final(out)@ == old(out)@ + decimal_text(n as nat),
    decreases n,
{
    if n < 10 {
        out.push(digit_to_char(n as u8, true));
    } else {
        push_decimal(out, n / 10);
        out.push(digit_to_char((n % 10) as u8, true));
    }
}

} // verus!
