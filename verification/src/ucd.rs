//! What the Unicode Character Database says of a scalar value.
//!
//! The tables are those of the `unic` crate. Each lookup is a function of the
//! scalar alone; its value has a name here, and the function that makes the
//! lookup is believed to return it. Nothing else in the library is taken on
//! trust about the tables.

use unic::char::property::EnumeratedCharProperty;
use vstd::prelude::*;
use crate::category::GeneralCategory;
use crate::text::{view_of, views_of};

verus! {

/// A version of the Unicode Standard.
#[derive(Clone, Copy, Debug, PartialEq, Eq, Structural)]
pub struct UnicodeVersion {
    /// The major version.
    pub major: u16,
    /// The minor version.
    pub minor: u16,
    /// The update version.
    pub micro: u16,
}

/// The version in which `c` was assigned, by the Age table; `None` for a
/// scalar that is not assigned.
pub uninterp spec fn age_of(c: char) -> Option<UnicodeVersion>;

/// The General_Category of `c`, by the category table.
pub uninterp spec fn general_category_of(c: char) -> GeneralCategory;

/// The display name of the Grapheme_Cluster_Break value of `c`.
pub uninterp spec fn grapheme_break_label_of(c: char) -> Seq<char>;

/// Whether `c` has the Alphabetic property.
pub uninterp spec fn alphabetic(c: char) -> bool;

/// Whether `c` has the Lowercase property.
pub uninterp spec fn lowercase(c: char) -> bool;

/// Whether `c` has the Uppercase property.
pub uninterp spec fn uppercase(c: char) -> bool;

/// Whether `c` has the White_Space property, by the tables of `unic`.
pub uninterp spec fn white_space(c: char) -> bool;

/// The Name of `c`, if it has one.
pub uninterp spec fn name_of(c: char) -> Option<Seq<char>>;

/// The Name_Alias entries of `c` that are abbreviations, in the order of the
/// table, if it lists any.
pub uninterp spec fn name_abbreviations_of(c: char) -> Option<Seq<Seq<char>>>;

/// `unic::ucd::Age::of`, then `Age::actual`: the version found in the Age
/// table, with its three numbers unchanged, or `None` where the table has no
/// entry. The lookup depends on the scalar alone.
#[verifier::external_body]
pub(crate) fn lookup_age(c: char) -> (age: Option<UnicodeVersion>)
    ensures
        age == age_of(c),
{
    match unic::ucd::Age::of(c) {
        Some(age) => {
            let v = age.actual();
            Some(UnicodeVersion { major: v.major, minor: v.minor, micro: v.micro })
        },
        None => None,
    }
}

/// `unic::ucd::GeneralCategory::of`, then `abbr_name`: the two-letter alias
/// of the category that the table gives for the scalar. Every value of the
/// outside enumeration has the alias that `GeneralCategory::abbr` gives to
/// the variant of the same name.
#[verifier::external_body]
pub(crate) fn lookup_category_abbr(c: char) -> (abbr: &'static str)
    ensures
        abbr@ == general_category_of(c).abbr(),
{
    unic::ucd::GeneralCategory::of(c).abbr_name()
}

/// `unic::ucd::GeneralCategory::of`, then its `Display`, which writes the
/// name for readers that the outside enumeration declares for the value.
/// `GeneralCategory::label` gives the same name to the variant of the same
/// name.
#[verifier::external_body]
pub(crate) fn lookup_category_label(c: char) -> (label: String)
    ensures
        label@ == general_category_of(c).label(),
{
    unic::ucd::GeneralCategory::of(c).to_string()
}

/// `unic::ucd::GraphemeClusterBreak::of`, then its `Display`: the name for
/// readers of the scalar's Grapheme_Cluster_Break value.
#[verifier::external_body]
pub(crate) fn lookup_grapheme_break_label(c: char) -> (label: String)
    ensures
        label@ == grapheme_break_label_of(c),
{
    unic::ucd::GraphemeClusterBreak::of(c).to_string()
}

/// `unic::ucd::Alphabetic::of`, then `as_bool`: whether the table of the
/// Alphabetic property holds the scalar.
#[verifier::external_body]
pub(crate) fn lookup_alphabetic(c: char) -> (b: bool)
    ensures
        b == alphabetic(c),
{
    unic::ucd::Alphabetic::of(c).as_bool()
}

/// `unic::ucd::Lowercase::of`, then `as_bool`: whether the table of the
/// Lowercase property holds the scalar.
#[verifier::external_body]
pub(crate) fn lookup_lowercase(c: char) -> (b: bool)
    ensures
        b == lowercase(c),
{
    unic::ucd::Lowercase::of(c).as_bool()
}

/// `unic::ucd::Uppercase::of`, then `as_bool`: whether the table of the
/// Uppercase property holds the scalar.
#[verifier::external_body]
pub(crate) fn lookup_uppercase(c: char) -> (b: bool)
    ensures
        b == uppercase(c),
{
    unic::ucd::Uppercase::of(c).as_bool()
}

/// `unic::ucd::WhiteSpace::of`, then `as_bool`: whether the table of the
/// White_Space property holds the scalar.
#[verifier::external_body]
pub(crate) fn lookup_white_space(c: char) -> (b: bool)
    ensures
        b == white_space(c),
{
    unic::ucd::WhiteSpace::of(c).as_bool()
}

/// `unic::ucd::Name::of`, then its `Display`: the Name of the scalar written
/// out, or `None` where it has none.
#[verifier::external_body]
pub(crate) fn lookup_name(c: char) -> (name: Option<String>)
    ensures
        view_of(name) == name_of(c),
{
    match unic::ucd::Name::of(c) {
        Some(name) => Some(name.to_string()),
        None => None,
    }
}

/// `unic::ucd::name_aliases_of` for the abbreviations: the entries that the
/// table lists for the scalar, in its order, or `None` where it lists none.
#[verifier::external_body]
pub(crate) fn lookup_name_abbreviations(c: char) -> (abbreviations: Option<Vec<String>>)
    ensures
        views_of(abbreviations) == name_abbreviations_of(c),
{
    match unic::ucd::name_aliases_of(c, unic::ucd::NameAliasType::NameAbbreviations) {
        Some(entries) => Some(entries.iter().map(|entry| entry.to_string()).collect()),
        None => None,
    }
}

} // verus!
