//! The output unit: one contiguous run of text sharing a single style
//! and link target.
use vstd::prelude::*;

use crate::style::{TextStyle, TextStyleV};

verus! {

/// Mathematical model of a [`TextSegment`].
#[verifier::ext_equal]
pub ghost struct TextSegmentV {
    pub content: Seq<char>,
    pub style: TextStyleV,
    pub href: Option<Seq<char>>,
}

/// One styled run of output text. Immutable once constructed; equality
/// is structural, so a segment's parts can serve as memo keys.
#[derive(Clone, Debug, PartialEq, Eq, Hash)]
pub struct TextSegment {
    pub content: String,
    pub style: TextStyle,
    pub href: Option<String>,
}

impl View for TextSegment {
    type V = TextSegmentV;

    open spec fn view(&self) -> TextSegmentV {
        TextSegmentV {
            content: self.content@,
            style: self.style@,
            href: match self.href {
                Some(h) => Some(h@),
                None => None,
            },
        }
    }
}

impl DeepView for TextSegment {
    type V = TextSegmentV;

    open spec fn deep_view(&self) -> TextSegmentV {
        self.view()
    }
}

/// The concatenation of the segments' contents, in order.
pub open spec fn spec_concat_contents(segs: Seq<TextSegmentV>) -> Seq<char>
    decreases segs.len(),
{
    if segs.len() == 0 {
        Seq::empty()
    } else {
        segs[0].content + spec_concat_contents(segs.drop_first())
    }
}

} // verus!
