//! What the explorer page shows, as plain values: the grapheme clusters of a
//! sample text, and for each cluster its code points with their bytes.
//!
//! Each component keeps the state that a page component has and decides
//! whether a change of its properties calls for drawing again. Drawing itself
//! is left to the page.

use vstd::prelude::*;
use crate::digits::{hex_text, push_hex};
use crate::segment::{graphemes_of, segment_graphemes};
use crate::text::{all_non_empty, views};
use crate::view::grapheme_cluster::Props;

pub mod grapheme_cluster;

verus! {

/// The root of the page.
pub struct App;

/// A code unit that is shown as a hexadecimal literal.
pub trait Byte: Sized {
    /// The unit as shown: `0x` and its lower-case hexadecimal digits, padded
    /// with zeros to the width of the type.
    spec fn formatted_text(&self) -> Seq<char>;

    /// The unit as shown.
    fn formatted(&self) -> (r: String)
        ensures
            r@ == self.formatted_text(),
    ;

    /// Whether two units are the same.
    fn same(&self, other: &Self) -> (r: bool)
        ensures
            r == (*self == *other),
    ;
}

impl Byte for u8 {
    open spec fn formatted_text(&self) -> Seq<char> {
        seq!['0', 'x'] + hex_text(*self as nat, 2, false)
    }

    fn formatted(&self) -> (r: String) {
        let mut r = String::new();
        r.push('0');
        r.push('x');
        push_hex(&mut r, *self as u32, 2, false);
        assert(r@ =~= self.formatted_text());
        r
    }

    fn same(&self, other: &u8) -> (r: bool) {
        *self == *other
    }
}

impl Byte for u16 {
    open spec fn formatted_text(&self) -> Seq<char> {
        seq!['0', 'x'] + hex_text(*self as nat, 4, false)
    }

    fn formatted(&self) -> (r: String) {
        let mut r = String::new();
        r.push('0');
        r.push('x');
        push_hex(&mut r, *self as u32, 4, false);
        assert(r@ =~= self.formatted_text());
        r
    }

    fn same(&self, other: &u16) -> (r: bool) {
        *self == *other
    }
}

/// The properties of a row of code units.
pub struct BytesComponentProps<B: Byte> {
    /// The units of the row, in order.
    pub bytes: Vec<B>,
}

/// A row of code units.
pub struct BytesComponent<B: Byte>(pub BytesComponentProps<B>);

/// Whether two rows hold the same units in the same order.
pub fn same_bytes<B: Byte>(a: &Vec<B>, b: &Vec<B>) -> (r: bool)
    ensures
        r == (a@ == b@),
{
    if a.len() != b.len() {
        return false;
    }
    let mut i: usize = 0;
    while i < a.len()
        invariant
            i <= a.len(),
            a.len() == b.len(),
            forall|k: int| 0 <= k < i ==> a@[k] == b@[k],
        decreases a.len() - i,
    {
        if !a[i].same(&b[i]) {
            return false;
        }
        i = i + 1;
    }
    assert(a@ =~= b@);
    true
}

impl<B: Byte> BytesComponent<B> {
    /// The component with the given properties.
    pub fn create(props: BytesComponentProps<B>) -> (r: Self)
        ensures
            r.0 == props,
    {
        BytesComponent(props)
    }

    /// The component takes no messages: nothing changes, and nothing is
    /// drawn again.
    pub fn update(&mut self, _msg: ()) -> (render: bool)
        ensures
            !render,
            *final(self) == *old(self),
    {
        false
    }

    /// Takes new properties. The row is drawn again if and only if its units
    /// changed.
    pub fn change(&mut self, props: BytesComponentProps<B>) -> (render: bool)
        ensures
            final(self).0.bytes@ == props.bytes@,
            render == (old(self).0.bytes@ != props.bytes@),
    {
        if !same_bytes(&self.0.bytes, &props.bytes) {
            self.0 = props;
            true
        } else {
            false
        }
    }

    /// The units as shown, in order.
    pub fn view(&self) -> (cells: Vec<String>)
        ensures
            cells@.len() == self.0.bytes@.len(),
            forall|k: int|
                0 <= k < cells@.len() ==> (#[trigger] cells@[k])@ == self.0.bytes@[k].formatted_text(),
    {
        let mut cells: Vec<String> = Vec::new();
        let mut i: usize = 0;
        while i < self.0.bytes.len()
            invariant
                i <= self.0.bytes@.len(),
                cells@.len() == i,
                forall|k: int|
                    0 <= k < i ==> (#[trigger] cells@[k])@ == self.0.bytes@[k].formatted_text(),
            decreases self.0.bytes.len() - i,
        {
            cells.push(self.0.bytes[i].formatted());
            i = i + 1;
        }
        cells
    }
}

/// The text that the page explores.
pub open spec fn sample_text() -> Seq<char> {
    seq!['D', 'e', 'n', 'm', 'a', 'r', 'k', ' ', '\u{1F1E9}', '\u{1F1F0}']
}

/// The cluster text of each of `props`, in order.
pub open spec fn props_texts(props: Seq<Props>) -> Seq<Seq<char>> {
    Seq::new(props.len(), |i: int| props[i].grapheme_cluster@)
}

/// The text that the page explores.
pub fn sample() -> (r: &'static str)
    ensures
        r@ == sample_text(),
{
    let r = "Denmark \u{1F1E9}\u{1F1F0}";
    proof {
        reveal_strlit("Denmark \u{1F1E9}\u{1F1F0}");
    }
    assert(r@ =~= sample_text());
    r
}

impl App {
    /// The page. It has no properties.
    pub fn create(_props: ()) -> (r: App)
        ensures
            r == App,
    {
        App
    }

    /// The page takes no messages: nothing changes, and nothing is drawn
    /// again.
    pub fn update(&mut self, _msg: ()) -> (render: bool)
        ensures
            !render,
            *final(self) == *old(self),
    {
        false
    }

    /// The page has no properties: nothing changes, and nothing is drawn
    /// again.
    pub fn change(&mut self, _props: ()) -> (render: bool)
        ensures
            !render,
            *final(self) == *old(self),
    {
        false
    }

    /// The properties of the components that the page shows: one for each
    /// grapheme cluster of the sample text, in order.
    pub fn view(&self) -> (clusters: Vec<Props>)
        ensures
            props_texts(clusters@) == graphemes_of(sample_text()),
            props_texts(clusters@).flatten() == sample_text(),
            all_non_empty(props_texts(clusters@)),
            clusters@.len() <= sample_text().len(),
    {
        let segments = segment_graphemes(sample());
        let mut clusters: Vec<Props> = Vec::new();
        let mut i: usize = 0;
        while i < segments.len()
            invariant
                i <= segments.len(),
                clusters@.len() == i,
                forall|k: int|
                    0 <= k < i ==> (#[trigger] clusters@[k]).grapheme_cluster@ == segments@[k]@,
            decreases segments.len() - i,
        {
            clusters.push(Props { grapheme_cluster: segments[i].clone() });
            i = i + 1;
        }
        assert(props_texts(clusters@) =~= views(segments@));
        clusters
    }
}

} // verus!
