//! The General_Category values and the colour in which each is shown.
//!
//! A category is known by its two-letter alias (`Lu`, `Zs`, ...). The colours
//! follow the major classes, with three departures: the paragraph separator
//! is shown with the controls, not with the other separators; format
//! controls have a colour of their own; and what is left of class `C` shares
//! one colour.

use vstd::prelude::*;
use vstd::string::StrSliceExecFns;

verus! {

/// A value of the General_Category property.
#[derive(Clone, Copy, Debug, PartialEq, Eq, Structural)]
pub enum GeneralCategory {
    /// An uppercase letter (`Lu`).
    UppercaseLetter,
    /// A lowercase letter (`Ll`).
    LowercaseLetter,
    /// A digraphic character, with first part uppercase (`Lt`).
    TitlecaseLetter,
    /// A modifier letter (`Lm`).
    ModifierLetter,
    /// Other letters, including syllables and ideographs (`Lo`).
    OtherLetter,
    /// A nonspacing combining mark (`Mn`).
    NonspacingMark,
    /// A spacing combining mark (`Mc`).
    SpacingMark,
    /// An enclosing combining mark (`Me`).
    EnclosingMark,
    /// A decimal digit (`Nd`).
    DecimalNumber,
    /// A letterlike numeric character (`Nl`).
    LetterNumber,
    /// A numeric character of other type (`No`).
    OtherNumber,
    /// A connecting punctuation mark (`Pc`).
    ConnectorPunctuation,
    /// A dash or hyphen (`Pd`).
    DashPunctuation,
    /// An opening punctuation mark of a pair (`Ps`).
    OpenPunctuation,
    /// A closing punctuation mark of a pair (`Pe`).
    ClosePunctuation,
    /// An initial quotation mark (`Pi`).
    InitialPunctuation,
    /// A final quotation mark (`Pf`).
    FinalPunctuation,
    /// A punctuation mark of other type (`Po`).
    OtherPunctuation,
    /// A symbol of mathematical use (`Sm`).
    MathSymbol,
    /// A currency sign (`Sc`).
    CurrencySymbol,
    /// A non-letterlike modifier symbol (`Sk`).
    ModifierSymbol,
    /// A symbol of other type (`So`).
    OtherSymbol,
    /// A space character (`Zs`).
    SpaceSeparator,
    /// The line separator (`Zl`).
    LineSeparator,
    /// The paragraph separator (`Zp`).
    ParagraphSeparator,
    /// A control code (`Cc`).
    Control,
    /// A format control character (`Cf`).
    Format,
    /// A surrogate code point (`Cs`).
    Surrogate,
    /// A private-use character (`Co`).
    PrivateUse,
    /// A code point with no character assigned (`Cn`).
    Unassigned,
}

/// The colour group of a category.
#[derive(Clone, Copy, Debug, PartialEq, Eq, Structural)]
pub enum ColorTag {
    /// Letters of every kind.
    Letter,
    /// Combining marks.
    Mark,
    /// Numbers.
    Number,
    /// Punctuation.
    Punctuation,
    /// Symbols.
    Symbol,
    /// Space and line separators.
    Separator,
    /// Format controls.
    Format,
    /// Controls, surrogates, paragraph separators, private use, unassigned.
    Other,
}

impl GeneralCategory {
    /// The two letters of the category's short alias.
    pub open spec fn abbr_chars(self) -> (char, char) {
        match self {
            GeneralCategory::UppercaseLetter => ('L', 'u'),
            GeneralCategory::LowercaseLetter => ('L', 'l'),
            GeneralCategory::TitlecaseLetter => ('L', 't'),
            GeneralCategory::ModifierLetter => ('L', 'm'),
            GeneralCategory::OtherLetter => ('L', 'o'),
            GeneralCategory::NonspacingMark => ('M', 'n'),
            GeneralCategory::SpacingMark => ('M', 'c'),
            GeneralCategory::EnclosingMark => ('M', 'e'),
            GeneralCategory::DecimalNumber => ('N', 'd'),
            GeneralCategory::LetterNumber => ('N', 'l'),
            GeneralCategory::OtherNumber => ('N', 'o'),
            GeneralCategory::ConnectorPunctuation => ('P', 'c'),
            GeneralCategory::DashPunctuation => ('P', 'd'),
            GeneralCategory::OpenPunctuation => ('P', 's'),
            GeneralCategory::ClosePunctuation => ('P', 'e'),
            GeneralCategory::InitialPunctuation => ('P', 'i'),
            GeneralCategory::FinalPunctuation => ('P', 'f'),
            GeneralCategory::OtherPunctuation => ('P', 'o'),
            GeneralCategory::MathSymbol => ('S', 'm'),
            GeneralCategory::CurrencySymbol => ('S', 'c'),
            GeneralCategory::ModifierSymbol => ('S', 'k'),
            GeneralCategory::OtherSymbol => ('S', 'o'),
            GeneralCategory::SpaceSeparator => ('Z', 's'),
            GeneralCategory::LineSeparator => ('Z', 'l'),
            GeneralCategory::ParagraphSeparator => ('Z', 'p'),
            GeneralCategory::Control => ('C', 'c'),
            GeneralCategory::Format => ('C', 'f'),
            GeneralCategory::Surrogate => ('C', 's'),
            GeneralCategory::PrivateUse => ('C', 'o'),
            GeneralCategory::Unassigned => ('C', 'n'),
        }
    }

    /// The category's name for readers.
    pub open spec fn label(self) -> Seq<char> {
        match self {
            GeneralCategory::UppercaseLetter => "Uppercase Letter"@,
            GeneralCategory::LowercaseLetter => "Lowercase Letter"@,
            GeneralCategory::TitlecaseLetter => "Titlecase Letter"@,
            GeneralCategory::ModifierLetter => "Modifier Letter"@,
            GeneralCategory::OtherLetter => "Other Letter"@,
            GeneralCategory::NonspacingMark => "Nonspacing Mark"@,
            GeneralCategory::SpacingMark => "Spacing Mark"@,
            GeneralCategory::EnclosingMark => "Enclosing Mark"@,
            GeneralCategory::DecimalNumber => "Decimal Digit"@,
            GeneralCategory::LetterNumber => "Letterlike Number"@,
            GeneralCategory::OtherNumber => "Other Numeric"@,
            GeneralCategory::ConnectorPunctuation => "Connecting Punctuation"@,
            GeneralCategory::DashPunctuation => "Dash Punctuation"@,
            GeneralCategory::OpenPunctuation => "Opening Punctuation"@,
            GeneralCategory::ClosePunctuation => "Closing Punctuation"@,
            GeneralCategory::InitialPunctuation => "Initial Quotation"@,
            GeneralCategory::FinalPunctuation => "Final Quotation"@,
            GeneralCategory::OtherPunctuation => "Other Punctuation"@,
            GeneralCategory::MathSymbol => "Math Symbol"@,
            GeneralCategory::CurrencySymbol => "Currency Symbol"@,
            GeneralCategory::ModifierSymbol => "Modifier Symbol"@,
            GeneralCategory::OtherSymbol => "Other Symbol"@,
            GeneralCategory::SpaceSeparator => "Space"@,
            GeneralCategory::LineSeparator => "Line Separator"@,
            GeneralCategory::ParagraphSeparator => "Paragraph Separator"@,
            GeneralCategory::Control => "Control"@,
            GeneralCategory::Format => "Formatting"@,
            GeneralCategory::Surrogate => "Surrogate"@,
            GeneralCategory::PrivateUse => "Private-Use"@,
            GeneralCategory::Unassigned => "Unassigned"@,
        }
    }

    /// The category's short alias as text.
    pub open spec fn abbr(self) -> Seq<char> {
        seq![self.abbr_chars().0, self.abbr_chars().1]
    }

    /// The category whose short alias is `text`, if there is one.
    pub open spec fn with_abbr(text: Seq<char>) -> Option<GeneralCategory> {
        if text.len() == 2 {
            GeneralCategory::with_abbr_chars(text[0], text[1])
        } else {
            None
        }
    }

    /// The category whose short alias is made of the letters `major` and
    /// `minor`, if there is one.
    pub open spec fn with_abbr_chars(major: char, minor: char) -> Option<GeneralCategory> {
        if exists|g: GeneralCategory| g.abbr_chars() == (major, minor) {
            Some(choose|g: GeneralCategory| g.abbr_chars() == (major, minor))
        } else {
            None
        }
    }

    /// The colour group that the category is shown in.
    pub open spec fn color_tag(self) -> ColorTag {
        match self {
            GeneralCategory::UppercaseLetter
            | GeneralCategory::LowercaseLetter
            | GeneralCategory::TitlecaseLetter
            | GeneralCategory::ModifierLetter
            | GeneralCategory::OtherLetter => ColorTag::Letter,
            GeneralCategory::NonspacingMark
            | GeneralCategory::SpacingMark
            | GeneralCategory::EnclosingMark => ColorTag::Mark,
            GeneralCategory::DecimalNumber
            | GeneralCategory::LetterNumber
            | GeneralCategory::OtherNumber => ColorTag::Number,
            GeneralCategory::ConnectorPunctuation
            | GeneralCategory::DashPunctuation
            | GeneralCategory::OpenPunctuation
            | GeneralCategory::ClosePunctuation
            | GeneralCategory::InitialPunctuation
            | GeneralCategory::FinalPunctuation
            | GeneralCategory::OtherPunctuation => ColorTag::Punctuation,
            GeneralCategory::MathSymbol
            | GeneralCategory::CurrencySymbol
            | GeneralCategory::ModifierSymbol
            | GeneralCategory::OtherSymbol => ColorTag::Symbol,
            GeneralCategory::SpaceSeparator
            | GeneralCategory::LineSeparator => ColorTag::Separator,
            GeneralCategory::Format => ColorTag::Format,
            GeneralCategory::ParagraphSeparator
            | GeneralCategory::Control
            | GeneralCategory::Surrogate
            | GeneralCategory::PrivateUse
            | GeneralCategory::Unassigned => ColorTag::Other,
        }
    }

    /// Reads a category from the two letters of its short alias.
    pub fn from_abbr_chars(major: char, minor: char) -> (found: Option<GeneralCategory>)
        ensures
            found == GeneralCategory::with_abbr_chars(major, minor),
            found matches Some(g) ==> g.abbr_chars() == (major, minor),
            found is None ==> forall|g: GeneralCategory| g.abbr_chars() != (major, minor),
    {
        let found = if major == 'L' {
            if minor == 'u' {
                Some(GeneralCategory::UppercaseLetter)
            } else if minor == 'l' {
                Some(GeneralCategory::LowercaseLetter)
            } else if minor == 't' {
                Some(GeneralCategory::TitlecaseLetter)
            } else if minor == 'm' {
                Some(GeneralCategory::ModifierLetter)
            } else if minor == 'o' {
                Some(GeneralCategory::OtherLetter)
            } else {
                None
            }
        } else if major == 'M' {
            if minor == 'n' {
                Some(GeneralCategory::NonspacingMark)
            } else if minor == 'c' {
                Some(GeneralCategory::SpacingMark)
            } else if minor == 'e' {
                Some(GeneralCategory::EnclosingMark)
            } else {
                None
            }
        } else if major == 'N' {
            if minor == 'd' {
                Some(GeneralCategory::DecimalNumber)
            } else if minor == 'l' {
                Some(GeneralCategory::LetterNumber)
            } else if minor == 'o' {
                Some(GeneralCategory::OtherNumber)
            } else {
                None
            }
        } else if major == 'P' {
            if minor == 'c' {
                Some(GeneralCategory::ConnectorPunctuation)
            } else if minor == 'd' {
                Some(GeneralCategory::DashPunctuation)
            } else if minor == 's' {
                Some(GeneralCategory::OpenPunctuation)
            } else if minor == 'e' {
                Some(GeneralCategory::ClosePunctuation)
            } else if minor == 'i' {
                Some(GeneralCategory::InitialPunctuation)
            } else if minor == 'f' {
                Some(GeneralCategory::FinalPunctuation)
            } else if minor == 'o' {
                Some(GeneralCategory::OtherPunctuation)
            } else {
                None
            }
        } else if major == 'S' {
            if minor == 'm' {
                Some(GeneralCategory::MathSymbol)
            } else if minor == 'c' {
                Some(GeneralCategory::CurrencySymbol)
            } else if minor == 'k' {
                Some(GeneralCategory::ModifierSymbol)
            } else if minor == 'o' {
                Some(GeneralCategory::OtherSymbol)
            } else {
                None
            }
        } else if major == 'Z' {
            if minor == 's' {
                Some(GeneralCategory::SpaceSeparator)
            } else if minor == 'l' {
                Some(GeneralCategory::LineSeparator)
            } else if minor == 'p' {
                Some(GeneralCategory::ParagraphSeparator)
            } else {
                None
            }
        } else if major == 'C' {
            if minor == 'c' {
                Some(GeneralCategory::Control)
            } else if minor == 'f' {
                Some(GeneralCategory::Format)
            } else if minor == 's' {
                Some(GeneralCategory::Surrogate)
            } else if minor == 'o' {
                Some(GeneralCategory::PrivateUse)
            } else if minor == 'n' {
                Some(GeneralCategory::Unassigned)
            } else {
                None
            }
        } else {
            None
        };
        proof {
            lemma_abbr_chars_unique();
            match found {
                Some(g) => {
                    assert(g.abbr_chars() == (major, minor));
                },
                None => {
                    assert forall|g: GeneralCategory| g.abbr_chars() != (major, minor) by {
                        lemma_abbr_chars_known(g);
                    }
                },
            }
        }
        found
    }

    /// Reads a category from its short alias.
    pub fn from_abbr(text: &str) -> (found: Option<GeneralCategory>)
        ensures
            found == GeneralCategory::with_abbr(text@),
            found matches Some(g) ==> g.abbr() == text@,
            found is None ==> forall|g: GeneralCategory| g.abbr() != text@,
    {
        if text.unicode_len() != 2 {
            return None;
        }
        let found = GeneralCategory::from_abbr_chars(text.get_char(0), text.get_char(1));
        proof {
            match found {
                Some(g) => {
                    assert(g.abbr() =~= text@);
                },
                None => {
                    assert forall|g: GeneralCategory| g.abbr() != text@ by {
                        assert(g.abbr()[0] == g.abbr_chars().0);
                        assert(g.abbr()[1] == g.abbr_chars().1);
                    }
                },
            }
        }
        found
    }

    /// The category's name for readers.
    pub fn human_name(self) -> (name: &'static str)
        ensures
            name@ == self.label(),
    {
        match self {
            GeneralCategory::UppercaseLetter => "Uppercase Letter",
            GeneralCategory::LowercaseLetter => "Lowercase Letter",
            GeneralCategory::TitlecaseLetter => "Titlecase Letter",
            GeneralCategory::ModifierLetter => "Modifier Letter",
            GeneralCategory::OtherLetter => "Other Letter",
            GeneralCategory::NonspacingMark => "Nonspacing Mark",
            GeneralCategory::SpacingMark => "Spacing Mark",
            GeneralCategory::EnclosingMark => "Enclosing Mark",
            GeneralCategory::DecimalNumber => "Decimal Digit",
            GeneralCategory::LetterNumber => "Letterlike Number",
            GeneralCategory::OtherNumber => "Other Numeric",
            GeneralCategory::ConnectorPunctuation => "Connecting Punctuation",
            GeneralCategory::DashPunctuation => "Dash Punctuation",
            GeneralCategory::OpenPunctuation => "Opening Punctuation",
            GeneralCategory::ClosePunctuation => "Closing Punctuation",
            GeneralCategory::InitialPunctuation => "Initial Quotation",
            GeneralCategory::FinalPunctuation => "Final Quotation",
            GeneralCategory::OtherPunctuation => "Other Punctuation",
            GeneralCategory::MathSymbol => "Math Symbol",
            GeneralCategory::CurrencySymbol => "Currency Symbol",
            GeneralCategory::ModifierSymbol => "Modifier Symbol",
            GeneralCategory::OtherSymbol => "Other Symbol",
            GeneralCategory::SpaceSeparator => "Space",
            GeneralCategory::LineSeparator => "Line Separator",
            GeneralCategory::ParagraphSeparator => "Paragraph Separator",
            GeneralCategory::Control => "Control",
            GeneralCategory::Format => "Formatting",
            GeneralCategory::Surrogate => "Surrogate",
            GeneralCategory::PrivateUse => "Private-Use",
            GeneralCategory::Unassigned => "Unassigned",
        }
    }

    /// The colour group of the category.
    pub fn color_of(self) -> (tag: ColorTag)
        ensures
            tag == self.color_tag(),
    {
        match self {
            GeneralCategory::UppercaseLetter
            | GeneralCategory::LowercaseLetter
            | GeneralCategory::TitlecaseLetter
            | GeneralCategory::ModifierLetter
            | GeneralCategory::OtherLetter => ColorTag::Letter,
            GeneralCategory::NonspacingMark
            | GeneralCategory::SpacingMark
            | GeneralCategory::EnclosingMark => ColorTag::Mark,
            GeneralCategory::DecimalNumber
            | GeneralCategory::LetterNumber
            | GeneralCategory::OtherNumber => ColorTag::Number,
            GeneralCategory::ConnectorPunctuation
            | GeneralCategory::DashPunctuation
            | GeneralCategory::OpenPunctuation
            | GeneralCategory::ClosePunctuation
            | GeneralCategory::InitialPunctuation
            | GeneralCategory::FinalPunctuation
            | GeneralCategory::OtherPunctuation => ColorTag::Punctuation,
            GeneralCategory::MathSymbol
            | GeneralCategory::CurrencySymbol
            | GeneralCategory::ModifierSymbol
            | GeneralCategory::OtherSymbol => ColorTag::Symbol,
            GeneralCategory::SpaceSeparator
            | GeneralCategory::LineSeparator => ColorTag::Separator,
            GeneralCategory::Format => ColorTag::Format,
            GeneralCategory::ParagraphSeparator
            | GeneralCategory::Control
            | GeneralCategory::Surrogate
            | GeneralCategory::PrivateUse
            | GeneralCategory::Unassigned => ColorTag::Other,
        }
    }
}

impl ColorTag {
    /// The colour as a `#rrggbb` string.
    pub open spec fn hex_text(self) -> Seq<char> {
        match self {
            ColorTag::Letter => "#df94c9"@,
            ColorTag::Mark => "#faba81"@,
            ColorTag::Number => "#f49587"@,
            ColorTag::Punctuation => "#8e8bce"@,
            ColorTag::Symbol => "#81b4f9"@,
            ColorTag::Separator => "#eacccd"@,
            ColorTag::Format => "#a0d0f7"@,
            ColorTag::Other => "#f1abf1"@,
        }
    }

    /// The colour as a `#rrggbb` string.
    pub fn hex(self) -> (text: &'static str)
        ensures
            text@ == self.hex_text(),
    {
        match self {
            ColorTag::Letter => "#df94c9",
            ColorTag::Mark => "#faba81",
            ColorTag::Number => "#f49587",
            ColorTag::Punctuation => "#8e8bce",
            ColorTag::Symbol => "#81b4f9",
            ColorTag::Separator => "#eacccd",
            ColorTag::Format => "#a0d0f7",
            ColorTag::Other => "#f1abf1",
        }
    }
}

/// The letters of a category's alias are among those that
/// `from_abbr_chars` tries.
proof fn lemma_abbr_chars_known(g: GeneralCategory)
    ensures
        g.abbr_chars() == ('L', 'u')
            || g.abbr_chars() == ('L', 'l')
            || g.abbr_chars() == ('L', 't')
            || g.abbr_chars() == ('L', 'm')
            || g.abbr_chars() == ('L', 'o')
            || g.abbr_chars() == ('M', 'n')
            || g.abbr_chars() == ('M', 'c')
            || g.abbr_chars() == ('M', 'e')
            || g.abbr_chars() == ('N', 'd')
            || g.abbr_chars() == ('N', 'l')
            || g.abbr_chars() == ('N', 'o')
            || g.abbr_chars() == ('P', 'c')
            || g.abbr_chars() == ('P', 'd')
            || g.abbr_chars() == ('P', 's')
            || g.abbr_chars() == ('P', 'e')
            || g.abbr_chars() == ('P', 'i')
            || g.abbr_chars() == ('P', 'f')
            || g.abbr_chars() == ('P', 'o')
            || g.abbr_chars() == ('S', 'm')
            || g.abbr_chars() == ('S', 'c')
            || g.abbr_chars() == ('S', 'k')
            || g.abbr_chars() == ('S', 'o')
            || g.abbr_chars() == ('Z', 's')
            || g.abbr_chars() == ('Z', 'l')
            || g.abbr_chars() == ('Z', 'p')
            || g.abbr_chars() == ('C', 'c')
            || g.abbr_chars() == ('C', 'f')
            || g.abbr_chars() == ('C', 's')
            || g.abbr_chars() == ('C', 'o')
            || g.abbr_chars() == ('C', 'n'),
{
}

/// No two categories share a short alias.
pub proof fn lemma_abbr_chars_unique()
    ensures
        forall|g: GeneralCategory, h: GeneralCategory|
            g.abbr_chars() == h.abbr_chars() ==> g == h,
{
    assert forall|g: GeneralCategory, h: GeneralCategory|
        g.abbr_chars() == h.abbr_chars() implies g == h by {
        lemma_abbr_chars_known(g);
        lemma_abbr_chars_known(h);
    }
}

/// A category is found again from its short alias, and from nothing else.
pub proof fn lemma_abbr_round_trip(g: GeneralCategory, text: Seq<char>)
    ensures
        GeneralCategory::with_abbr(g.abbr()) == Some(g),
        GeneralCategory::with_abbr(text) == Some(g) <==> text == g.abbr(),
{
    lemma_abbr_chars_unique();
    assert(g.abbr().len() == 2);
    assert(g.abbr()[0] == g.abbr_chars().0 && g.abbr()[1] == g.abbr_chars().1);
    if text.len() == 2 {
        if GeneralCategory::with_abbr(text) == Some(g) {
            assert(g.abbr_chars() == (text[0], text[1]));
            assert(text =~= g.abbr());
        }
    }
}

/// Every category has exactly one colour, and the colours follow the first
/// letter of the alias: `L` letters, `M` marks, `N` numbers, `P` punctuation,
/// `S` symbols; of `Z`, the space and line separators; of `C`, the format
/// controls; and one colour for the rest.
pub proof fn lemma_color_groups(g: GeneralCategory)
    ensures
        g.color_tag() == ColorTag::Letter <==> g.abbr_chars().0 == 'L',
        g.color_tag() == ColorTag::Mark <==> g.abbr_chars().0 == 'M',
        g.color_tag() == ColorTag::Number <==> g.abbr_chars().0 == 'N',
        g.color_tag() == ColorTag::Punctuation <==> g.abbr_chars().0 == 'P',
        g.color_tag() == ColorTag::Symbol <==> g.abbr_chars().0 == 'S',
        g.color_tag() == ColorTag::Separator <==> g.abbr_chars() == ('Z', 's') || g.abbr_chars()
            == ('Z', 'l'),
        g.color_tag() == ColorTag::Format <==> g.abbr_chars() == ('C', 'f'),
        g.color_tag() == ColorTag::Other <==> g.abbr_chars() == ('Z', 'p') || (g.abbr_chars().0
            == 'C' && g.abbr_chars().1 != 'f'),
{
}

/// Different colour groups have different colour strings.
pub proof fn lemma_hex_distinct(a: ColorTag, b: ColorTag)
    ensures
        a.hex_text() == b.hex_text() <==> a == b,
        a.hex_text().len() == 7,
        a.hex_text()[0] == '#',
{
    reveal_strlit("#df94c9");
    reveal_strlit("#faba81");
    reveal_strlit("#f49587");
    reveal_strlit("#8e8bce");
    reveal_strlit("#81b4f9");
    reveal_strlit("#eacccd");
    reveal_strlit("#a0d0f7");
    reveal_strlit("#f1abf1");
    if a != b {
        assert(a.hex_text()[1] != b.hex_text()[1] || a.hex_text()[2] != b.hex_text()[2]);
    }
}

} // verus!
