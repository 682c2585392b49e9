//! The description of a text: its words, their grapheme clusters, and the
//! code points of each cluster.

use vstd::prelude::*;
use vstd::string::StringExecFns;
use vstd::utf8::encode_utf8;
use crate::code_point::{
    age_text, char_age, char_category_color, char_code, char_display, char_name,
    char_plain_name, code_text, display_text, name_text, plain_name_text,
};
use crate::encoding::{
    lemma_utf8_of_text, utf16_of, utf16_units, utf8_bytes, utf8_of, utf8_of_each,
};
use crate::segment::{graphemes_of, segment_graphemes, segment_words, word_bounds_of};
use crate::text::{all_non_empty, lemma_parts_at_most_scalars, std_white_space, views};
use crate::ucd::{
    age_of, alphabetic, general_category_of, grapheme_break_label_of, lookup_alphabetic,
    lookup_category_abbr, lookup_category_label, lookup_grapheme_break_label,
    lookup_lowercase, lookup_uppercase, lookup_white_space, lowercase, name_abbreviations_of,
    name_of, uppercase, white_space,
};

verus! {

/// One scalar value with everything that is shown of it.
#[derive(Debug)]
pub struct CodePoint {
    /// The version in which the scalar was assigned, or `<none>`.
    pub age: String,
    /// The General_Category, by its name for readers.
    pub category: String,
    /// The General_Category, by its two-letter alias.
    pub category_abbr: &'static str,
    /// The colour of the General_Category, as `#rrggbb`.
    pub category_color: &'static str,
    /// The scalar itself.
    pub char: char,
    /// The code, such as `U+0063`.
    pub code: String,
    /// The scalar as text; white space in its escaped form.
    pub display: String,
    /// The Grapheme_Cluster_Break value, by its name for readers.
    pub grapheme_cluster_break: String,
    /// The Alphabetic property.
    pub is_alphabetic: bool,
    /// The Lowercase property.
    pub is_lowercase: bool,
    /// The Uppercase property.
    pub is_uppercase: bool,
    /// The White_Space property.
    pub is_white_space: bool,
    /// The name in title case, else the first abbreviation, else `<none>`.
    pub name: String,
    /// The UTF-8 encoding.
    pub utf8_bytes: Vec<u8>,
    /// The UTF-16 encoding, one entry for each code unit.
    pub utf16_bytes: Vec<u16>,
}

/// An extended grapheme cluster and its code points.
#[derive(Debug)]
pub struct GraphemeCluster {
    /// The text of the cluster.
    pub content: String,
    /// The scalars of the text, each with its description.
    pub code_points: Vec<CodePoint>,
}

/// A word-level segment and its grapheme clusters.
#[derive(Debug)]
pub struct Word {
    /// The text of the segment.
    pub content: String,
    /// The grapheme clusters of the text.
    pub grapheme_clusters: Vec<GraphemeCluster>,
}

/// One scalar value as the command line shows it.
#[derive(Debug)]
pub struct CharInfo {
    /// The version in which the scalar was assigned, or `<none>`.
    pub age: String,
    /// The scalar itself.
    pub char: char,
    /// The scalar as text; white space in its escaped form.
    pub display: String,
    /// The General_Category, by its name for readers.
    pub general_category: String,
    /// The Grapheme_Cluster_Break value, by its name for readers.
    pub grapheme_cluster_break: String,
    /// The Alphabetic property.
    pub is_alphabetic: bool,
    /// The Lowercase property.
    pub is_lowercase: bool,
    /// The Uppercase property.
    pub is_uppercase: bool,
    /// The White_Space property.
    pub is_white_space: bool,
    /// The name as listed, else the first abbreviation, else `<none>`.
    pub name: String,
}

/// The content of each cluster of `clusters`, in order.
pub open spec fn cluster_texts(clusters: Seq<GraphemeCluster>) -> Seq<Seq<char>> {
    Seq::new(clusters.len(), |i: int| clusters[i].content@)
}

/// The content of each word of `words`, in order.
pub open spec fn word_texts(words: Seq<Word>) -> Seq<Seq<char>> {
    Seq::new(words.len(), |i: int| words[i].content@)
}

/// The scalar of each code point of `code_points`, in order.
pub open spec fn scalars(code_points: Seq<CodePoint>) -> Seq<char> {
    Seq::new(code_points.len(), |i: int| code_points[i].char)
}

/// The UTF-8 bytes of each code point of `code_points`, in order.
pub open spec fn utf8_parts(code_points: Seq<CodePoint>) -> Seq<Seq<u8>> {
    Seq::new(code_points.len(), |i: int| code_points[i].utf8_bytes@)
}

/// The scalars of each cluster of `clusters`, in order.
pub open spec fn cluster_scalars(clusters: Seq<GraphemeCluster>) -> Seq<Seq<char>> {
    Seq::new(clusters.len(), |i: int| scalars(clusters[i].code_points@))
}

/// The scalars of each word of `words`, in order.
pub open spec fn word_scalars(words: Seq<Word>) -> Seq<Seq<char>> {
    Seq::new(words.len(), |i: int| cluster_scalars(words[i].grapheme_clusters@).flatten())
}

impl CodePoint {
    /// Whether this is the description of `c`: every field holds what the
    /// tables and the encodings give for `c`.
    pub open spec fn describes(&self, c: char) -> bool {
        &&& self.char == c
        &&& self.code@ == code_text(c)
        &&& self.display@ == display_text(c, std_white_space(c))
        &&& self.age@ == age_text(age_of(c))
        &&& self.category@ == general_category_of(c).label()
        &&& self.category_abbr@ == general_category_of(c).abbr()
        &&& self.category_color@ == general_category_of(c).color_tag().hex_text()
        &&& self.grapheme_cluster_break@ == grapheme_break_label_of(c)
        &&& self.is_alphabetic == alphabetic(c)
        &&& self.is_lowercase == lowercase(c)
        &&& self.is_uppercase == uppercase(c)
        &&& self.is_white_space == white_space(c)
        &&& self.name@ == name_text(name_of(c), name_abbreviations_of(c))
        &&& self.utf8_bytes@ == utf8_of(c)
        &&& self.utf16_bytes@ == utf16_of(c)
    }

    /// Whether this is the description of its own scalar.
    pub open spec fn wf(&self) -> bool {
        self.describes(self.char)
    }

    /// Describes `c`. Every scalar has a description: what the tables do not
    /// list is shown as `<none>`.
    pub fn from_char(c: char) -> (r: CodePoint)
        ensures
            r.describes(c),
            r.wf(),
    {
        CodePoint {
            age: char_age(c),
            category: lookup_category_label(c),
            category_abbr: lookup_category_abbr(c),
            category_color: char_category_color(c),
            char: c,
            code: char_code(c),
            display: char_display(c),
            grapheme_cluster_break: lookup_grapheme_break_label(c),
            is_alphabetic: lookup_alphabetic(c),
            is_lowercase: lookup_lowercase(c),
            is_uppercase: lookup_uppercase(c),
            is_white_space: lookup_white_space(c),
            name: char_name(c),
            utf8_bytes: utf8_bytes(c),
            utf16_bytes: utf16_units(c),
        }
    }
}

impl CharInfo {
    /// Whether this is the description of `c`.
    pub open spec fn describes(&self, c: char) -> bool {
        &&& self.char == c
        &&& self.display@ == display_text(c, std_white_space(c))
        &&& self.age@ == age_text(age_of(c))
        &&& self.general_category@ == general_category_of(c).label()
        &&& self.grapheme_cluster_break@ == grapheme_break_label_of(c)
        &&& self.is_alphabetic == alphabetic(c)
        &&& self.is_lowercase == lowercase(c)
        &&& self.is_uppercase == uppercase(c)
        &&& self.is_white_space == white_space(c)
        &&& self.name@ == plain_name_text(name_of(c), name_abbreviations_of(c))
    }

    /// Describes `c`, with its name as the tables list it.
    pub fn from_char(c: char) -> (r: CharInfo)
        ensures
            r.describes(c),
    {
        CharInfo {
            age: char_age(c),
            char: c,
            display: char_display(c),
            general_category: lookup_category_label(c),
            grapheme_cluster_break: lookup_grapheme_break_label(c),
            is_alphabetic: lookup_alphabetic(c),
            is_lowercase: lookup_lowercase(c),
            is_uppercase: lookup_uppercase(c),
            is_white_space: lookup_white_space(c),
            name: char_plain_name(c),
        }
    }
}

impl GraphemeCluster {
    /// The code points are the scalars of the content, one description for
    /// each, in the order of the text.
    pub open spec fn wf(&self) -> bool {
        &&& scalars(self.code_points@) == self.content@
        &&& forall|i: int|
            0 <= i < self.code_points@.len() ==> (#[trigger] self.code_points@[i]).wf()
    }

    /// The cluster with content `s`.
    pub fn from_str(s: &str) -> (r: GraphemeCluster)
        ensures
            r.content@ == s@,
            r.wf(),
    {
        let mut code_points: Vec<CodePoint> = Vec::new();
        for c in it: s.chars()
            invariant
                it.seq() == s@,
                code_points@.len() == it.index(),
                forall|k: int|
                    0 <= k < it.index() ==> (#[trigger] code_points@[k]).describes(s@[k]),
        {
            code_points.push(CodePoint::from_char(c));
        }
        let r = GraphemeCluster { content: String::from_str(s), code_points };
        assert(scalars(r.code_points@) =~= r.content@);
        r
    }
}

impl Word {
    /// The clusters are the grapheme clusters of the content, each well
    /// formed and none empty; joined in order, their contents are the
    /// content.
    pub open spec fn wf(&self) -> bool {
        &&& cluster_texts(self.grapheme_clusters@) == graphemes_of(self.content@)
        &&& cluster_texts(self.grapheme_clusters@).flatten() == self.content@
        &&& all_non_empty(cluster_texts(self.grapheme_clusters@))
        &&& forall|i: int|
            0 <= i < self.grapheme_clusters@.len() ==> (#[trigger] self.grapheme_clusters@[i]).wf()
    }

    /// The word with content `word_str`. It has at most as many clusters as
    /// `word_str` has scalars.
    pub fn from_str(word_str: &str) -> (r: Word)
        ensures
            r.content@ == word_str@,
            r.wf(),
            r.grapheme_clusters@.len() <= word_str@.len(),
    {
        let segments = segment_graphemes(word_str);
        let mut clusters: Vec<GraphemeCluster> = Vec::new();
        let mut i: usize = 0;
        while i < segments.len()
            invariant
                i <= segments.len(),
                clusters@.len() == i,
                forall|k: int| 0 <= k < i ==> (#[trigger] clusters@[k]).content@ == segments@[k]@,
                forall|k: int| 0 <= k < i ==> (#[trigger] clusters@[k]).wf(),
            decreases segments.len() - i,
        {
            clusters.push(GraphemeCluster::from_str(segments[i].as_str()));
            i = i + 1;
        }
        assert(cluster_texts(clusters@) =~= views(segments@));
        Word { content: String::from_str(word_str), grapheme_clusters: clusters }
    }
}

/// The descriptions of the scalars of `cluster`, in the order of the text.
pub fn describe_cluster(cluster: &str) -> (infos: Vec<CharInfo>)
    ensures
        infos@.len() == cluster@.len(),
        forall|k: int| 0 <= k < infos@.len() ==> (#[trigger] infos@[k]).describes(cluster@[k]),
{
    let mut infos: Vec<CharInfo> = Vec::new();
    for c in it: cluster.chars()
        invariant
            it.seq() == cluster@,
            infos@.len() == it.index(),
            forall|k: int| 0 <= k < it.index() ==> (#[trigger] infos@[k]).describes(cluster@[k]),
    {
        infos.push(CharInfo::from_char(c));
    }
    infos
}

/// Describes `s`: its word-level segments in order, each with its grapheme
/// clusters and their code points. Nothing of `s` is left out: the contents
/// of the words, joined in order, are `s`. No word is empty, so there are at
/// most as many words as `s` has scalars.
pub fn unicode_info(s: &str) -> (words: Vec<Word>)
    ensures
        word_texts(words@) == word_bounds_of(s@),
        word_texts(words@).flatten() == s@,
        all_non_empty(word_texts(words@)),
        words@.len() <= s@.len(),
        s@.len() == 0 ==> words@.len() == 0,
        forall|i: int| 0 <= i < words@.len() ==> (#[trigger] words@[i]).wf(),
{
    let segments = segment_words(s);
    let mut words: Vec<Word> = Vec::new();
    let mut i: usize = 0;
    while i < segments.len()
        invariant
            i <= segments.len(),
            words@.len() == i,
            forall|k: int| 0 <= k < i ==> (#[trigger] words@[k]).content@ == segments@[k]@,
            forall|k: int| 0 <= k < i ==> (#[trigger] words@[k]).wf(),
        decreases segments.len() - i,
    {
        words.push(Word::from_str(segments[i].as_str()));
        i = i + 1;
    }
    assert(word_texts(words@) =~= views(segments@));
    words
}

/// The UTF-8 bytes of the code points of a well-formed cluster, joined in
/// order, are the UTF-8 encoding of its content.
pub proof fn lemma_cluster_bytes(cluster: GraphemeCluster)
    requires
        cluster.wf(),
    ensures
        utf8_parts(cluster.code_points@).flatten() == encode_utf8(cluster.content@),
{
    let code_points = cluster.code_points@;
    assert forall|i: int| 0 <= i < code_points.len() implies #[trigger] utf8_parts(code_points)[i]
        == utf8_of_each(cluster.content@)[i] by {
        assert(code_points[i].wf());
        assert(scalars(code_points)[i] == code_points[i].char);
    }
    assert(utf8_parts(code_points) =~= utf8_of_each(cluster.content@));
    lemma_utf8_of_text(cluster.content@);
}

/// The scalars of the clusters of a well-formed word, joined in order, are
/// its content.
pub proof fn lemma_word_scalars(word: Word)
    requires
        word.wf(),
    ensures
        cluster_scalars(word.grapheme_clusters@).flatten() == word.content@,
{
    let clusters = word.grapheme_clusters@;
    assert forall|i: int| 0 <= i < clusters.len() implies #[trigger] cluster_scalars(clusters)[i]
        == cluster_texts(clusters)[i] by {
        assert(clusters[i].wf());
    }
    assert(cluster_scalars(clusters) =~= cluster_texts(clusters));
}

/// A well-formed word has at least one cluster unless it is empty, and at
/// most as many clusters as its content has scalars.
pub proof fn lemma_word_cluster_count(word: Word)
    requires
        word.wf(),
    ensures
        word.grapheme_clusters@.len() <= word.content@.len(),
        word.content@.len() > 0 ==> word.grapheme_clusters@.len() > 0,
{
    lemma_parts_at_most_scalars(cluster_texts(word.grapheme_clusters@));
}

/// A description made of well-formed words whose contents, joined in
/// order, are `text` holds every scalar of `text` once, in the order of the
/// text: its code points, read word by word and cluster by cluster, are
/// `text`.
pub proof fn lemma_tree_scalars(words: Seq<Word>, text: Seq<char>)
    requires
        word_texts(words).flatten() == text,
        forall|i: int| 0 <= i < words.len() ==> (#[trigger] words[i]).wf(),
    ensures
        word_scalars(words).flatten() == text,
{
    assert forall|i: int| 0 <= i < words.len() implies #[trigger] word_scalars(words)[i]
        == word_texts(words)[i] by {
        lemma_word_scalars(words[i]);
    }
    assert(word_scalars(words) =~= word_texts(words));
}

} // verus!
