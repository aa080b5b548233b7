//! The Markdown event model the interpreter runs on, and the trusted
//! bridge that obtains the event stream from the pulldown-cmark parser.
//!
//! Only the event kinds the interpreter distinguishes are carried over;
//! every other parser event collapses to `Other`, which the interpreter
//! ignores (no segment, no state change).
use vstd::prelude::*;

verus! {

/// Heading level, H1 through H6.
#[derive(Copy, Clone, Debug, PartialEq, Eq, Hash, Structural)]
pub enum MdHeadingLevel {
    H1,
    H2,
    H3,
    H4,
    H5,
    H6,
}

/// An opening tag, as far as the interpreter distinguishes them. `Link`
/// carries the destination URL; `CodeFence` carries the (possibly empty)
/// language token of a fenced code block.
#[derive(Clone, Debug)]
pub enum MdTag {
    Paragraph,
    Heading(MdHeadingLevel),
    Strong,
    Emphasis,
    Strikethrough,
    Link(String),
    CodeFence(String),
    Other,
}

/// A closing tag, as far as the interpreter distinguishes them.
#[derive(Copy, Clone, Debug, PartialEq, Eq, Structural)]
pub enum MdTagEnd {
    Paragraph,
    Link,
    CodeBlock,
    Other,
}

/// One parser event.
#[derive(Clone, Debug)]
pub enum MdEvent {
    Start(MdTag),
    End(MdTagEnd),
    Text(String),
    SoftBreak,
    HardBreak,
    Other,
}

/// Mathematical model of an [`MdTag`].
#[verifier::ext_equal]
pub ghost enum MdTagV {
    Paragraph,
    Heading(MdHeadingLevel),
    Strong,
    Emphasis,
    Strikethrough,
    Link(Seq<char>),
    CodeFence(Seq<char>),
    Other,
}

/// Mathematical model of an [`MdEvent`].
#[verifier::ext_equal]
pub ghost enum MdEventV {
    Start(MdTagV),
    End(MdTagEnd),
    Text(Seq<char>),
    SoftBreak,
    HardBreak,
    Other,
}

impl View for MdTag {
    type V = MdTagV;

    open spec fn view(&self) -> MdTagV {
        match self {
            MdTag::Paragraph => MdTagV::Paragraph,
            MdTag::Heading(level) => MdTagV::Heading(*level),
            MdTag::Strong => MdTagV::Strong,
            MdTag::Emphasis => MdTagV::Emphasis,
            MdTag::Strikethrough => MdTagV::Strikethrough,
            MdTag::Link(dest) => MdTagV::Link(dest@),
            MdTag::CodeFence(lang) => MdTagV::CodeFence(lang@),
            MdTag::Other => MdTagV::Other,
        }
    }
}

impl DeepView for MdTag {
    type V = MdTagV;

    open spec fn deep_view(&self) -> MdTagV {
        self.view()
    }
}

impl View for MdEvent {
    type V = MdEventV;

    open spec fn view(&self) -> MdEventV {
        match self {
            MdEvent::Start(tag) => MdEventV::Start(tag@),
            MdEvent::End(te) => MdEventV::End(*te),
            MdEvent::Text(t) => MdEventV::Text(t@),
            MdEvent::SoftBreak => MdEventV::SoftBreak,
            MdEvent::HardBreak => MdEventV::HardBreak,
            MdEvent::Other => MdEventV::Other,
        }
    }
}

impl DeepView for MdEvent {
    type V = MdEventV;

    open spec fn deep_view(&self) -> MdEventV {
        self.view()
    }
}

/// The event stream that the CommonMark parser (with the strikethrough
/// and task-list extensions enabled) produces for the given UTF-8 text,
/// mapped onto the event model above.
pub uninterp spec fn events_of(text: Seq<u8>) -> Seq<MdEventV>;

#[verifier::external_type_specification]
#[verifier::external_body]
pub struct ExTag<'a>(pulldown_cmark::Tag<'a>);

#[verifier::external_type_specification]
#[verifier::external_body]
pub struct ExTagEnd(pulldown_cmark::TagEnd);

#[verifier::external_type_specification]
#[verifier::external_body]
pub struct ExHeadingLevel(pulldown_cmark::HeadingLevel);

/// Relies on pulldown-cmark's `HeadingLevel`: carries each of the six
/// levels over one to one.
#[verifier::external_body]
fn convert_level(level: pulldown_cmark::HeadingLevel) -> MdHeadingLevel {
    match level {
        pulldown_cmark::HeadingLevel::H1 => MdHeadingLevel::H1,
        pulldown_cmark::HeadingLevel::H2 => MdHeadingLevel::H2,
        pulldown_cmark::HeadingLevel::H3 => MdHeadingLevel::H3,
        pulldown_cmark::HeadingLevel::H4 => MdHeadingLevel::H4,
        pulldown_cmark::HeadingLevel::H5 => MdHeadingLevel::H5,
        pulldown_cmark::HeadingLevel::H6 => MdHeadingLevel::H6,
    }
}

/// Relies on pulldown-cmark's `Tag`: moves over the variants the
/// interpreter distinguishes (heading level, link destination, fenced
/// code language token); every other tag, including an indented code
/// block, becomes `Other`.
#[verifier::external_body]
fn convert_start(tag: pulldown_cmark::Tag<'_>) -> MdEvent {
    MdEvent::Start(
        match tag {
            pulldown_cmark::Tag::Paragraph => MdTag::Paragraph,
            pulldown_cmark::Tag::Heading { level, .. } => MdTag::Heading(convert_level(level)),
            pulldown_cmark::Tag::Strong => MdTag::Strong,
            pulldown_cmark::Tag::Emphasis => MdTag::Emphasis,
            pulldown_cmark::Tag::Strikethrough => MdTag::Strikethrough,
            pulldown_cmark::Tag::Link { dest_url, .. } => MdTag::Link(dest_url.to_string()),
            pulldown_cmark::Tag::CodeBlock(pulldown_cmark::CodeBlockKind::Fenced(lang)) => MdTag::CodeFence(
                lang.to_string(),
            ),
            _ => MdTag::Other,
        },
    )
}

/// Relies on pulldown-cmark's `TagEnd`: moves over the variants the
/// interpreter distinguishes; every other closing tag becomes `Other`.
#[verifier::external_body]
fn convert_end(tag: pulldown_cmark::TagEnd) -> MdEvent {
    MdEvent::End(
        match tag {
            pulldown_cmark::TagEnd::Paragraph => MdTagEnd::Paragraph,
            pulldown_cmark::TagEnd::Link => MdTagEnd::Link,
            pulldown_cmark::TagEnd::CodeBlock => MdTagEnd::CodeBlock,
            _ => MdTagEnd::Other,
        },
    )
}

/// Relies on pulldown-cmark's `Parser::new_ext`: parses the (lossily
/// decoded) UTF-8 text as CommonMark with the strikethrough and
/// task-list extensions enabled and returns the event stream in document
/// order; the stream depends on the text alone.
#[verifier::external_body]
pub(crate) fn parse_events(text: &Vec<u8>) -> (r: Vec<MdEvent>)
    ensures
        r.deep_view() == events_of(text@),
{
    let s = String::from_utf8_lossy(text);
    let opts = pulldown_cmark::Options::ENABLE_STRIKETHROUGH | pulldown_cmark::Options::ENABLE_TASKLISTS;
    pulldown_cmark::Parser::new_ext(&s, opts)
        .map(|ev| match ev {
            pulldown_cmark::Event::Start(tag) => convert_start(tag),
            pulldown_cmark::Event::End(tag) => convert_end(tag),
            pulldown_cmark::Event::Text(t) => MdEvent::Text(t.to_string()),
            pulldown_cmark::Event::SoftBreak => MdEvent::SoftBreak,
            pulldown_cmark::Event::HardBreak => MdEvent::HardBreak,
            _ => MdEvent::Other,
        })
        .collect()
}

} // verus!
