//! Markdown-to-styled-segment compiler.
//!
//! Converts raw Markdown text into an ordered sequence of styled text
//! segments (content + typography + optional hyperlink) that a host UI
//! layer can render without re-parsing Markdown itself. Font sizes are
//! carried in tenths of a point so that all style arithmetic is exact.
//!
//! The pipeline: bare URLs are normalized into explicit autolinks, every
//! line break is escaped into a hard break, the text is parsed into a
//! CommonMark event stream, and the event interpreter folds that stream
//! into segments, highlighting fenced code blocks along the way. A host
//! then turns the segments into its native values through the
//! memoizing materializer in [`cache`], which builds each distinct
//! string, color, font-family list and style exactly once.
use vstd::prelude::*;

pub mod cache;
pub mod events;
pub mod highlight;
pub mod interp;
pub mod links;
pub mod options;
pub mod segment;
pub mod style;

verus! {

use vstd::string::StrSliceExecFns;
use vstd::utf8::encode_utf8;

use crate::events::{events_of, parse_events};
use crate::interp::{interpret_events, spec_interpret};
use crate::links::{
    escape_newlines, normalize_links, spec_escape_newlines, spec_normalize_links, url_spans,
};
use crate::options::{MarkdownOptions, MarkdownOptionsV};
use crate::segment::{TextSegment, TextSegmentV};

/// The segment sequence the given Markdown text converts to: bare
/// `http://` / `https://` URLs become autolinks, every newline becomes a
/// hard break, and the interpreter folds the resulting event stream.
pub open spec fn spec_parse_markdown(text: Seq<char>, opts: MarkdownOptionsV) -> Seq<
    TextSegmentV,
> {
    spec_interpret(events_of(spec_escape_newlines(spec_normalize_links(encode_utf8(text)))), opts)
}

/// Convert Markdown text into the ordered sequence of styled segments,
/// in document order, with highlighted code segments replacing each
/// fenced block.
pub fn parse_markdown(markdown_input: &str, opts: &MarkdownOptions) -> (r: Vec<TextSegment>)
    ensures
        r.deep_view() == spec_parse_markdown(markdown_input@, opts@),
{
    let bytes = markdown_input.as_bytes_vec();
    let spans = url_spans(markdown_input);
    let normalized = normalize_links(&bytes, &spans);
    let prepared = escape_newlines(&normalized);
    let events = parse_events(&prepared);
    interpret_events(&events, opts)
}

/// Idempotence of conversion: the output is a function of the text and
/// the options alone, so two conversions of identical input are
/// structurally equal.
pub proof fn lemma_parse_deterministic(
    text: Seq<char>,
    opts: MarkdownOptionsV,
    r1: Seq<TextSegmentV>,
    r2: Seq<TextSegmentV>,
)
    requires
        r1 == spec_parse_markdown(text, opts),
        r2 == spec_parse_markdown(text, opts),
    ensures
        r1 == r2,
{
}

} // verus!
