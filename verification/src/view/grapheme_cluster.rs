//! The component that shows one grapheme cluster: its text, and under it
//! one column for each code point with the bytes of its encodings.

use vstd::prelude::*;
use vstd::std_specs::cmp::PartialEqSpecImpl;
use crate::encoding::{utf16_of, utf16_units, utf8_bytes, utf8_of};
use crate::view::BytesComponentProps;

verus! {

/// The properties of the component: the cluster to show.
#[derive(Clone, Debug)]
pub struct Props {
    /// The text of the cluster.
    pub grapheme_cluster: String,
}

impl PartialEq for Props {
    fn eq(&self, other: &Props) -> (r: bool) {
        self.grapheme_cluster == other.grapheme_cluster
    }
}

impl PartialEqSpecImpl for Props {
    open spec fn obeys_eq_spec() -> bool {
        true
    }

    open spec fn eq_spec(&self, other: &Props) -> bool {
        self.grapheme_cluster@ == other.grapheme_cluster@
    }
}

/// The component that shows one grapheme cluster.
pub struct Component(pub Props);

/// One column of the component: the bytes of one code point.
pub struct CodePointColumn {
    /// The row of UTF-8 bytes.
    pub utf8_bytes: BytesComponentProps<u8>,
    /// The row of UTF-16 code units.
    pub utf16_bytes: BytesComponentProps<u16>,
}

/// What the component shows.
pub struct ClusterView {
    /// The text of the cluster.
    pub text: String,
    /// One column for each code point of the cluster.
    pub columns: Vec<CodePointColumn>,
}

impl CodePointColumn {
    /// Whether the column holds the two encodings of `c`.
    pub open spec fn shows(&self, c: char) -> bool {
        &&& self.utf8_bytes.bytes@ == utf8_of(c)
        &&& self.utf16_bytes.bytes@ == utf16_of(c)
    }
}

impl Component {
    /// The component with the given properties.
    pub fn create(props: Props) -> (r: Component)
        ensures
            r.0 == props,
    {
        Component(props)
    }

    /// The component takes no messages: nothing changes, and nothing is
    /// drawn again.
    pub fn update(&mut self, _msg: ()) -> (render: bool)
        ensures
            !render,
            *final(self) == *old(self),
    {
        false
    }

    /// Takes new properties. The component is drawn again if and only if the
    /// cluster changed.
    pub fn change(&mut self, props: Props) -> (render: bool)
        ensures
            final(self).0.grapheme_cluster@ == props.grapheme_cluster@,
            render == (old(self).0.grapheme_cluster@ != props.grapheme_cluster@),
    {
        if !(self.0 == props) {
            self.0 = props;
            true
        } else {
            false
        }
    }

    /// What the component shows: the cluster, and one column for each of its
    /// code points, in the order of the text.
    pub fn view(&self) -> (shown: ClusterView)
        ensures
            shown.text@ == self.0.grapheme_cluster@,
            shown.columns@.len() == self.0.grapheme_cluster@.len(),
            forall|k: int|
                0 <= k < shown.columns@.len() ==> (#[trigger] shown.columns@[k]).shows(
                    self.0.grapheme_cluster@[k],
                ),
    {
        let text: &str = self.0.grapheme_cluster.as_str();
        let mut columns: Vec<CodePointColumn> = Vec::new();
        for code_point in it: text.chars()
            invariant
                it.seq() == text@,
                columns@.len() == it.index(),
                forall|k: int| 0 <= k < it.index() ==> (#[trigger] columns@[k]).shows(text@[k]),
        {
            columns.push(
                CodePointColumn {
                    utf8_bytes: BytesComponentProps { bytes: utf8_bytes(code_point) },
                    utf16_bytes: BytesComponentProps { bytes: utf16_units(code_point) },
                },
            );
        }
        ClusterView { text: self.0.grapheme_cluster.clone(), columns }
    }
}

} // verus!
