//! Takes text apart into words, extended grapheme clusters and code points,
//! and describes each code point by its Unicode properties.

pub mod casing;
pub mod category;
pub mod code_point;
pub mod digits;
pub mod encoding;
pub mod segment;
pub mod text;
pub mod tree;
pub mod ucd;
pub mod view;

pub use crate::casing::ascii_string_to_title_case;
pub use crate::category::{ColorTag, GeneralCategory};
pub use crate::code_point::{
    char_age, char_category, char_category_color, char_code, char_display, char_name,
    char_name_abbreviations,
};
pub use crate::segment::{segment_graphemes, segment_words};
pub use crate::tree::{unicode_info, CharInfo, CodePoint, GraphemeCluster, Word};
pub use crate::ucd::UnicodeVersion;
pub use crate::view::grapheme_cluster::{Component, Props};
pub use crate::view::App;
