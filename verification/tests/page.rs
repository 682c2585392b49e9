use unicode_explorer::view::{sample, same_bytes, Byte, BytesComponent, BytesComponentProps};
use unicode_explorer::{App, Component, Props};

fn props(text: &str) -> Props {
    Props { grapheme_cluster: text.to_string() }
}

#[test]
fn page_shows_the_clusters_of_the_sample() {
    assert_eq!(sample(), "Denmark 🇩🇰");
    let mut app = App::create(());
    assert!(!app.update(()));
    assert!(!app.change(()));
    let clusters = app.view();
    let texts: Vec<&str> = clusters.iter().map(|p| p.grapheme_cluster.as_str()).collect();
    assert_eq!(texts, vec!["D", "e", "n", "m", "a", "r", "k", " ", "🇩🇰"]);
}

#[test]
fn component_draws_again_only_for_another_cluster() {
    let mut component = Component::create(props("a"));
    assert_eq!(component.0.grapheme_cluster, "a");
    assert!(!component.update(()));
    assert!(!component.change(props("a")));
    assert_eq!(component.0.grapheme_cluster, "a");
    assert!(component.change(props("b")));
    assert_eq!(component.0.grapheme_cluster, "b");
    assert!(!component.change(props("b")));
    assert!(component.change(props("")));
    assert_eq!(component.0.grapheme_cluster, "");
}

#[test]
fn properties_are_equal_by_their_cluster() {
    assert!(props("x") == props("x"));
    assert!(props("x") != props("y"));
    assert!(props("x").clone() == props("x"));
}

#[test]
fn component_shows_the_bytes_of_each_code_point() {
    let component = Component::create(props("🇩🇰"));
    let shown = component.view();
    assert_eq!(shown.text, "🇩🇰");
    assert_eq!(shown.columns.len(), 2);
    assert_eq!(shown.columns[0].utf8_bytes.bytes, vec![0xF0, 0x9F, 0x87, 0xA9]);
    assert_eq!(shown.columns[0].utf16_bytes.bytes, vec![0xD83C, 0xDDE9]);
    assert_eq!(shown.columns[1].utf8_bytes.bytes, vec![0xF0, 0x9F, 0x87, 0xB0]);
    assert_eq!(shown.columns[1].utf16_bytes.bytes, vec![0xD83C, 0xDDF0]);
    let empty = Component::create(props("")).view();
    assert_eq!(empty.text, "");
    assert!(empty.columns.is_empty());
}

#[test]
fn bytes_are_shown_as_padded_hex_literals() {
    assert_eq!(0x0au8.formatted(), "0x0a");
    assert_eq!(0u8.formatted(), "0x00");
    assert_eq!(0xffu8.formatted(), "0xff");
    assert_eq!(0x61u16.formatted(), "0x0061");
    assert_eq!(0xd83du16.formatted(), "0xd83d");
    for b in 0u8..=255 {
        assert_eq!(b.formatted(), format!("{:#04x}", b));
    }
    for u in 0u16..=65535 {
        assert_eq!(u.formatted(), format!("{:#06x}", u));
    }
}

#[test]
fn row_of_bytes_shows_each_in_order() {
    let row = BytesComponent::create(BytesComponentProps { bytes: vec![0xF0u8, 0x9F, 0x01] });
    assert_eq!(row.view(), vec!["0xf0", "0x9f", "0x01"]);
    let units = BytesComponent::create(BytesComponentProps { bytes: vec![0xD83Cu16, 0x41] });
    assert_eq!(units.view(), vec!["0xd83c", "0x0041"]);
    let none = BytesComponent::create(BytesComponentProps { bytes: Vec::<u8>::new() });
    assert!(none.view().is_empty());
}

#[test]
fn row_of_bytes_draws_again_only_for_other_bytes() {
    let mut row = BytesComponent::create(BytesComponentProps { bytes: vec![1u8, 2] });
    assert!(!row.update(()));
    assert!(!row.change(BytesComponentProps { bytes: vec![1u8, 2] }));
    assert!(row.change(BytesComponentProps { bytes: vec![1u8, 3] }));
    assert_eq!(row.0.bytes, vec![1u8, 3]);
    assert!(row.change(BytesComponentProps { bytes: vec![1u8] }));
    assert_eq!(row.0.bytes, vec![1u8]);
    assert!(same_bytes(&vec![7u16, 8], &vec![7u16, 8]));
    assert!(!same_bytes(&vec![7u16, 8], &vec![7u16]));
    assert!(!same_bytes(&vec![7u16, 8], &vec![8u16, 7]));
    assert!(7u8.same(&7));
    assert!(!7u16.same(&8));
}
