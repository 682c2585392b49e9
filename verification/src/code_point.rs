//! The description of one scalar value: its code, how it is displayed, and
//! its properties.

use vstd::pervasive::unreached;
use vstd::prelude::*;
use crate::casing::{ascii_string_to_title_case, title_case};
use crate::category::{lemma_abbr_round_trip, GeneralCategory};
use crate::digits::{
    decimal_text, digits_value, hex_text, is_hex_digit, lemma_hex_text_len,
    lemma_hex_text_value, push_decimal, push_hex,
};
use crate::text::{std_white_space, view_of, views_of};
use crate::ucd::{
    age_of, general_category_of, lookup_age, lookup_category_abbr, lookup_name,
    lookup_name_abbreviations, name_abbreviations_of, name_of, UnicodeVersion,
};

verus! {

/// What stands in place of a name or an age that a scalar does not have.
pub open spec fn none_text() -> Seq<char> {
    seq!['<', 'n', 'o', 'n', 'e', '>']
}

/// The code of `c`: `U+` and its value in upper-case hexadecimal digits, at
/// least four of them.
pub open spec fn code_text(c: char) -> Seq<char> {
    seq!['U', '+'] + hex_text(c as nat, 4, true)
}

/// The escaped form of `c`: a backslash and a letter for tab, carriage
/// return and line feed; for any other scalar `\u{..}` around its value in
/// lower-case hexadecimal digits without padding, such as `\u{20}` for a
/// space.
pub open spec fn escape_text(c: char) -> Seq<char> {
    if c == '\t' {
        seq!['\\', 't']
    } else if c == '\r' {
        seq!['\\', 'r']
    } else if c == '\n' {
        seq!['\\', 'n']
    } else {
        seq!['\\', 'u', '{'] + hex_text(c as nat, 1, false) + seq!['}']
    }
}

/// How `c` is displayed: in its escaped form if it counts as white space,
/// else as itself.
pub open spec fn display_text(c: char, is_white_space: bool) -> Seq<char> {
    if is_white_space {
        escape_text(c)
    } else {
        seq![c]
    }
}

/// A version written as `major.minor.micro`.
pub open spec fn version_text(v: UnicodeVersion) -> Seq<char> {
    decimal_text(v.major as nat) + seq!['.'] + decimal_text(v.minor as nat) + seq!['.']
        + decimal_text(v.micro as nat)
}

/// The age as text: the version, or `<none>` if there is none.
pub open spec fn age_text(age: Option<UnicodeVersion>) -> Seq<char> {
    match age {
        Some(v) => version_text(v),
        None => none_text(),
    }
}

/// The first abbreviation, if one is listed.
pub open spec fn first_abbreviation(abbreviations: Option<Seq<Seq<char>>>) -> Option<Seq<char>> {
    match abbreviations {
        Some(entries) => if entries.len() > 0 {
            Some(entries[0])
        } else {
            None
        },
        None => None,
    }
}

/// The name to show: the primary name in title case; without one, the first
/// abbreviation as it is listed; without either, `<none>`.
pub open spec fn name_text(primary: Option<Seq<char>>, abbreviations: Option<Seq<Seq<char>>>) -> Seq<
    char,
> {
    match primary {
        Some(name) => title_case(name),
        None => match first_abbreviation(abbreviations) {
            Some(entry) => entry,
            None => none_text(),
        },
    }
}

/// As `name_text`, with the primary name as it is listed.
pub open spec fn plain_name_text(
    primary: Option<Seq<char>>,
    abbreviations: Option<Seq<Seq<char>>>,
) -> Seq<char> {
    match primary {
        Some(name) => name,
        None => match first_abbreviation(abbreviations) {
            Some(entry) => entry,
            None => none_text(),
        },
    }
}

/// The text `<none>`.
pub fn none_string() -> (r: String)
    ensures
        r@ == none_text(),
{
    let mut r = String::new();
    r.push('<');
    r.push('n');
    r.push('o');
    r.push('n');
    r.push('e');
    r.push('>');
    assert(r@ =~= none_text());
    r
}

/// The code of `c`, such as `U+0063` for `c`.
pub fn char_code(c: char) -> (r: String)
    ensures
        r@ == code_text(c),
{
    let mut r = String::new();
    r.push('U');
    r.push('+');
    push_hex(&mut r, c as u32, 4, true);
    assert(r@ =~= code_text(c));
    r
}

/// The escaped form of `c`: `\t`, `\r`, `\n`, or `\u{..}`.
pub fn escape_char(c: char) -> (r: String)
    ensures
        r@ == escape_text(c),
{
    let mut r = String::new();
    if c == '\t' {
        r.push('\\');
        r.push('t');
    } else if c == '\r' {
        r.push('\\');
        r.push('r');
    } else if c == '\n' {
        r.push('\\');
        r.push('n');
    } else {
        r.push('\\');
        r.push('u');
        r.push('{');
        push_hex(&mut r, c as u32, 1, false);
        r.push('}');
    }
    assert(r@ =~= escape_text(c));
    r
}

/// How `c` is displayed, given whether it counts as white space.
pub fn display_with(c: char, is_white_space: bool) -> (r: String)
    ensures
        r@ == display_text(c, is_white_space),
{
    if is_white_space {
        escape_char(c)
    } else {
        let mut r = String::new();
        r.push(c);
        assert(r@ =~= seq![c]);
        r
    }
}

/// How `c` is displayed: white space in its escaped form, any other scalar
/// as itself.
pub fn char_display(c: char) -> (r: String)
    ensures
        r@ == display_text(c, std_white_space(c)),
{
    display_with(c, c.is_whitespace())
}

/// The age as text: `major.minor.micro`, or `<none>`.
pub fn format_age(age: Option<UnicodeVersion>) -> (r: String)
    ensures
        r@ == age_text(age),
{
    match age {
        Some(v) => {
            let mut r = String::new();
            push_decimal(&mut r, v.major);
            r.push('.');
            push_decimal(&mut r, v.minor);
            r.push('.');
            push_decimal(&mut r, v.micro);
            assert(r@ =~= version_text(v));
            r
        },
        None => none_string(),
    }
}

/// The version in which `c` was assigned, as text, or `<none>`.
pub fn char_age(c: char) -> (r: String)
    ensures
        r@ == age_text(age_of(c)),
{
    format_age(lookup_age(c))
}

/// The first abbreviation of a list, or `<none>`.
fn abbreviation_or_none(abbreviations: Option<Vec<String>>) -> (r: String)
    ensures
        r@ == match first_abbreviation(views_of(abbreviations)) {
            Some(entry) => entry,
            None => none_text(),
        },
{
    match abbreviations {
        Some(entries) => {
            if entries.len() > 0 {
                entries[0].clone()
            } else {
                none_string()
            }
        },
        None => none_string(),
    }
}

/// The name to show for a scalar whose primary name and abbreviations are
/// given: the primary name in title case; else the first abbreviation; else
/// `<none>`.
pub fn resolve_name(primary: Option<String>, abbreviations: Option<Vec<String>>) -> (r: String)
    ensures
        r@ == name_text(view_of(primary), views_of(abbreviations)),
{
    match primary {
        Some(name) => ascii_string_to_title_case(name),
        None => abbreviation_or_none(abbreviations),
    }
}

/// As `resolve_name`, with the primary name as it is listed.
pub fn resolve_plain_name(primary: Option<String>, abbreviations: Option<Vec<String>>) -> (r:
    String)
    ensures
        r@ == plain_name_text(view_of(primary), views_of(abbreviations)),
{
    match primary {
        Some(name) => name,
        None => abbreviation_or_none(abbreviations),
    }
}

/// The first abbreviation that the tables list for `c`, if any.
pub fn char_name_abbreviations(c: char) -> (r: Option<String>)
    ensures
        view_of(r) == first_abbreviation(name_abbreviations_of(c)),
{
    match lookup_name_abbreviations(c) {
        Some(entries) => {
            if entries.len() > 0 {
                Some(entries[0].clone())
            } else {
                None
            }
        },
        None => None,
    }
}

/// The primary name of `c`, and its abbreviations where it has no primary
/// name.
fn name_sources(c: char) -> (r: (Option<String>, Option<Vec<String>>))
    ensures
        view_of(r.0) == name_of(c),
        r.0 is None ==> views_of(r.1) == name_abbreviations_of(c),
{
    let primary = lookup_name(c);
    let abbreviations = if primary.is_none() {
        lookup_name_abbreviations(c)
    } else {
        None
    };
    (primary, abbreviations)
}

/// The name to show for `c`, in title case where it is the primary name.
pub fn char_name(c: char) -> (r: String)
    ensures
        r@ == name_text(name_of(c), name_abbreviations_of(c)),
{
    let (primary, abbreviations) = name_sources(c);
    resolve_name(primary, abbreviations)
}

/// The name to show for `c`, as the tables list it.
pub fn char_plain_name(c: char) -> (r: String)
    ensures
        r@ == plain_name_text(name_of(c), name_abbreviations_of(c)),
{
    let (primary, abbreviations) = name_sources(c);
    resolve_plain_name(primary, abbreviations)
}

/// The General_Category of `c`.
pub fn char_category(c: char) -> (r: GeneralCategory)
    ensures
        r == general_category_of(c),
{
    let abbr = lookup_category_abbr(c);
    proof {
        lemma_abbr_round_trip(general_category_of(c), abbr@);
    }
    match GeneralCategory::from_abbr(abbr) {
        Some(category) => category,
        None => unreached(),
    }
}

/// The colour in which `c` is shown, as a `#rrggbb` string.
pub fn char_category_color(c: char) -> (r: &'static str)
    ensures
        r@ == general_category_of(c).color_tag().hex_text(),
{
    char_category(c).color_of().hex()
}

/// An escaped form starts with a backslash and has at least two characters,
/// so it is never the scalar itself. Apart from the three forms with a
/// letter, it is `\u{`, lower-case hexadecimal digits that read back give
/// the scalar, and `}`.
pub proof fn lemma_escape_shape(c: char)
    ensures
        escape_text(c).len() >= 2,
        escape_text(c)[0] == '\\',
        escape_text(c) != seq![c],
        display_text(c, true) != seq![c],
        display_text(c, false) == seq![c],
        c != '\t' && c != '\r' && c != '\n' ==> {
            let digits = hex_text(c as nat, 1, false);
            &&& escape_text(c) == seq!['\\', 'u', '{'] + digits + seq!['}']
            &&& escape_text(c).len() == digits.len() + 4
            &&& digits_value(digits, 16) == c as nat
            &&& forall|i: int| 0 <= i < digits.len() ==> is_hex_digit(#[trigger] digits[i], false)
        },
{
    lemma_hex_text_value(c as nat, 1, false);
    lemma_hex_text_len(c as nat, 1, false);
    assert(seq![c].len() == 1);
}

/// Different scalars have different escaped forms.
pub proof fn lemma_escape_injective(a: char, b: char)
    ensures
        escape_text(a) == escape_text(b) <==> a == b,
{
    lemma_escape_shape(a);
    lemma_escape_shape(b);
    let da = hex_text(a as nat, 1, false);
    let db = hex_text(b as nat, 1, false);
    if escape_text(a) == escape_text(b) {
        let a_short = a == '\t' || a == '\r' || a == '\n';
        let b_short = b == '\t' || b == '\r' || b == '\n';
        if a_short || b_short {
            assert(escape_text(a)[1] == escape_text(b)[1]);
        } else {
            assert(escape_text(a).len() == escape_text(b).len());
            assert(escape_text(a).subrange(3, 3 + da.len() as int) =~= da);
            assert(escape_text(b).subrange(3, 3 + db.len() as int) =~= db);
            assert(da == db);
        }
    }
}

/// The number of hexadecimal digits in the code of `c`: four up to U+FFFF,
/// five up to U+FFFFF, six above.
pub open spec fn code_digits(c: char) -> nat {
    if (c as u32) < 0x10000 {
        4
    } else if (c as u32) < 0x100000 {
        5
    } else {
        6
    }
}

/// A code is `U+` followed by upper-case hexadecimal digits: four of them
/// where four are enough, else as many as the value needs; and the digits
/// read back give the scalar, so that no two scalars share a code.
pub proof fn lemma_code_shape(c: char)
    ensures
        code_text(c).len() == 2 + code_digits(c),
        code_text(c)[0] == 'U',
        code_text(c)[1] == '+',
        forall|i: int| 2 <= i < code_text(c).len() ==> is_hex_digit(#[trigger] code_text(c)[i], true),
        digits_value(code_text(c).skip(2), 16) == c as nat,
{
    let digits = hex_text(c as nat, 4, true);
    lemma_hex_text_value(c as nat, 4, true);
    assert(digits.len() == code_digits(c)) by {
        reveal_with_fuel(hex_text, 8);
    }
    assert(code_text(c).skip(2) =~= digits);
    assert forall|i: int| 2 <= i < code_text(c).len() implies is_hex_digit(
        #[trigger] code_text(c)[i],
        true,
    ) by {
        assert(code_text(c)[i] == digits[i - 2]);
    }
}

/// Different scalars have different codes.
pub proof fn lemma_code_injective(a: char, b: char)
    ensures
        code_text(a) == code_text(b) <==> a == b,
{
    lemma_code_shape(a);
    lemma_code_shape(b);
}

} // verus!
