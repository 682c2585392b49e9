use unicode_explorer::segment::keeps_segment;
use unicode_explorer::tree::describe_cluster;
use unicode_explorer::{
    segment_graphemes, segment_words, unicode_info, GraphemeCluster, Word,
};

const SAMPLES: [&str; 9] = [
    "",
    " ",
    "Denmark 🇩🇰",
    "Hello, world!",
    "a\u{301}bc  d\r\ne",
    "can't 3.14 x_y",
    "👨\u{200D}👩\u{200D}👧 family",
    "한국어 日本語",
    "\t\n\u{378}\u{E000}",
];

#[test]
fn words_joined_are_the_text() {
    for s in SAMPLES {
        assert_eq!(segment_words(s).concat(), s);
    }
}

#[test]
fn clusters_joined_are_the_word() {
    for s in SAMPLES {
        assert_eq!(segment_graphemes(s).concat(), s);
        for w in segment_words(s) {
            assert_eq!(segment_graphemes(&w).concat(), w);
        }
    }
}

#[test]
fn no_segment_is_empty() {
    for s in SAMPLES {
        let words = segment_words(s);
        assert!(words.len() <= s.chars().count());
        for w in &words {
            assert!(!w.is_empty());
            let clusters = segment_graphemes(w);
            assert!(!clusters.is_empty());
            assert!(clusters.len() <= w.chars().count());
            assert!(clusters.iter().all(|g| !g.is_empty()));
        }
        for w in unicode_info(s) {
            assert!(!w.content.is_empty());
            assert!(!w.grapheme_clusters.is_empty());
            for g in &w.grapheme_clusters {
                assert!(!g.content.is_empty());
                assert!(!g.code_points.is_empty());
            }
        }
    }
}

#[test]
fn space_between_words_is_displayed_escaped() {
    let words = unicode_info("a b");
    assert_eq!(words.len(), 3);
    let space = &words[1].grapheme_clusters[0].code_points[0];
    assert_eq!(space.char, ' ');
    assert_eq!(space.display, "\\u{20}");
    assert!(space.is_white_space);
    assert_eq!(words[0].grapheme_clusters[0].code_points[0].display, "a");
}

#[test]
fn empty_text_has_no_segments() {
    assert!(segment_words("").is_empty());
    assert!(segment_graphemes("").is_empty());
    assert!(unicode_info("").is_empty());
}

#[test]
fn white_space_and_punctuation_are_segments() {
    assert_eq!(segment_words("Hello, world!"), vec!["Hello", ",", " ", "world", "!"]);
    assert_eq!(segment_words("a  b"), vec!["a", " ", " ", "b"]);
    assert_eq!(segment_words("can't"), vec!["can't"]);
    assert!(keeps_segment(&" "));
    assert!(keeps_segment(&""));
    assert!(keeps_segment(&"word"));
}

#[test]
fn clusters_keep_marks_with_their_base() {
    assert_eq!(segment_graphemes("a\u{301}bc"), vec!["a\u{301}", "b", "c"]);
    assert_eq!(segment_graphemes("\r\n"), vec!["\r\n"]);
    assert_eq!(segment_graphemes("🇩🇰🇩🇪"), vec!["🇩🇰", "🇩🇪"]);
}

#[test]
fn words_of_denmark_and_its_flag() {
    assert_eq!(segment_words("Denmark 🇩🇰"), vec!["Denmark", " ", "🇩🇰"]);
    let words = unicode_info("Denmark 🇩🇰");
    assert_eq!(words.len(), 3);
    assert_eq!(words[0].content, "Denmark");
    assert_eq!(words[1].content, " ");
    assert_eq!(words[2].content, "🇩🇰");
    assert_eq!(words[0].grapheme_clusters.len(), 7);
    assert_eq!(words[1].grapheme_clusters.len(), 1);

    let flag = &words[2];
    assert_eq!(flag.grapheme_clusters.len(), 1);
    let cluster = &flag.grapheme_clusters[0];
    assert_eq!(cluster.content, "🇩🇰");
    assert_eq!(cluster.code_points.len(), 2);
    let d = &cluster.code_points[0];
    let k = &cluster.code_points[1];
    assert_eq!(d.char, '\u{1F1E9}');
    assert_eq!(k.char, '\u{1F1F0}');
    assert_eq!(d.code, "U+1F1E9");
    assert_eq!(k.code, "U+1F1F0");
    for p in [d, k] {
        assert_eq!(p.category, "Other Symbol");
        assert_eq!(p.category_abbr, "So");
        assert_eq!(p.category_color, "#81b4f9");
        assert_eq!(p.grapheme_cluster_break, "Regional Indicator");
        assert!(!p.is_alphabetic);
        assert!(!p.is_white_space);
        assert_eq!(p.age, "6.0.0");
        assert_eq!(p.utf8_bytes.len(), 4);
        assert_eq!(p.utf16_bytes.len(), 2);
    }
    assert_eq!(d.name, "Regional Indicator Symbol Letter D");
    assert_eq!(k.name, "Regional Indicator Symbol Letter K");
    assert_eq!(d.display, "\u{1F1E9}");
}

#[test]
fn tree_holds_every_scalar_once() {
    for s in SAMPLES {
        let words = unicode_info(s);
        let mut joined_words = String::new();
        let mut joined_clusters = String::new();
        let mut joined_scalars = String::new();
        let mut joined_bytes: Vec<u8> = Vec::new();
        for w in &words {
            joined_words.push_str(&w.content);
            let mut of_word = String::new();
            for g in &w.grapheme_clusters {
                joined_clusters.push_str(&g.content);
                of_word.push_str(&g.content);
                let scalars: String = g.code_points.iter().map(|p| p.char).collect();
                assert_eq!(scalars, g.content);
                for p in &g.code_points {
                    joined_scalars.push(p.char);
                    joined_bytes.extend_from_slice(&p.utf8_bytes);
                }
            }
            assert_eq!(of_word, w.content);
        }
        assert_eq!(joined_words, s);
        assert_eq!(joined_clusters, s);
        assert_eq!(joined_scalars, s);
        assert_eq!(joined_bytes, s.as_bytes());
    }
}

#[test]
fn word_from_its_text() {
    let w = Word::from_str("e\u{301}te\u{301}");
    assert_eq!(w.content, "e\u{301}te\u{301}");
    let texts: Vec<&str> = w.grapheme_clusters.iter().map(|g| g.content.as_str()).collect();
    assert_eq!(texts, vec!["e\u{301}", "t", "e\u{301}"]);
    assert_eq!(w.grapheme_clusters[0].code_points.len(), 2);
    assert_eq!(w.grapheme_clusters[0].code_points[1].category_abbr, "Mn");
    let empty = Word::from_str("");
    assert_eq!(empty.content, "");
    assert!(empty.grapheme_clusters.is_empty());
}

#[test]
fn cluster_from_its_text() {
    let g = GraphemeCluster::from_str("👨\u{200D}👩");
    assert_eq!(g.content, "👨\u{200D}👩");
    let codes: Vec<&str> = g.code_points.iter().map(|p| p.code.as_str()).collect();
    assert_eq!(codes, vec!["U+1F468", "U+200D", "U+1F469"]);
    assert_eq!(g.code_points[1].category_color, "#a0d0f7");
    let empty = GraphemeCluster::from_str("");
    assert!(empty.code_points.is_empty());
}

#[test]
fn cluster_described_for_the_command_line() {
    let infos = describe_cluster("e\u{301}");
    assert_eq!(infos.len(), 2);
    assert_eq!(infos[0].char, 'e');
    assert_eq!(infos[0].name, "LATIN SMALL LETTER E");
    assert_eq!(infos[1].char, '\u{301}');
    assert_eq!(infos[1].name, "COMBINING ACUTE ACCENT");
    assert_eq!(infos[1].general_category, "Nonspacing Mark");
    assert_eq!(infos[1].grapheme_cluster_break, "Extend");
    assert!(describe_cluster("").is_empty());
}
