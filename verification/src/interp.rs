//! The Markdown event interpreter: drives the parser's event stream,
//! maintains a stack of inherited styles (one entry per open tag), an
//! active link target, a pending-line-break accumulator and a fenced
//! code buffer, and emits the flat segment sequence in document order.
use vstd::prelude::*;

use crate::events::{MdEvent, MdEventV, MdHeadingLevel, MdTag, MdTagEnd, MdTagV};
use crate::highlight::{
    highlight_code_block, highlight_result_of, lemma_span_segments_keep_text,
    spec_concat_span_texts, spec_effective_lang, spec_highlight_segments, theme_known,
};
use crate::options::{MarkdownOptions, MarkdownOptionsV};
use crate::segment::{spec_concat_contents, TextSegment, TextSegmentV};
use crate::style::{
    clone_opt_strings, FontSlant, FontStyle, FontWeight, FontWidth, TextDecoration, TextStyle,
    TextStyleV, DEFAULT_FONT_SIZE_TENTHS,
};

verus! {

/// Mathematical model of the interpreter state.
#[verifier::ext_equal]
pub ghost struct InterpStateV {
    /// One style per open tag, innermost last.
    pub styles: Seq<TextStyleV>,
    /// The destination of the currently open link, if any.
    pub href: Option<Seq<char>>,
    /// Queued line breaks, prefixed onto the next text segment.
    pub pending: Seq<char>,
    /// Whether a fenced code block is open.
    pub in_code: bool,
    /// The language token remembered from the open fence.
    pub lang: Option<Seq<char>>,
    /// Raw text collected while in code-block mode.
    pub buffer: Seq<char>,
}

/// The interpreter state: a style stack, the active link target, the
/// pending-break accumulator and the fenced-code buffer.
pub struct InterpState {
    pub styles: Vec<TextStyle>,
    pub href: Option<String>,
    pub pending: String,
    pub in_code: bool,
    pub lang: Option<String>,
    pub buffer: String,
}

/// An optional string as a spec value.
pub open spec fn spec_opt_str(o: Option<String>) -> Option<Seq<char>> {
    match o {
        Some(s) => Some(s@),
        None => None,
    }
}

impl View for InterpState {
    type V = InterpStateV;

    open spec fn view(&self) -> InterpStateV {
        InterpStateV {
            styles: self.styles.deep_view(),
            href: spec_opt_str(self.href),
            pending: self.pending@,
            in_code: self.in_code,
            lang: spec_opt_str(self.lang),
            buffer: self.buffer@,
        }
    }
}

/// The state before the first event: empty stack, no link, nothing
/// pending, not in a code block.
pub open spec fn spec_initial_state() -> InterpStateV {
    InterpStateV {
        styles: Seq::empty(),
        href: None,
        pending: Seq::empty(),
        in_code: false,
        lang: None,
        buffer: Seq::empty(),
    }
}

/// The style an outermost tag starts from: the base font size and the
/// options' global font-family list, everything else unset.
pub open spec fn spec_base_style(opts: MarkdownOptionsV) -> TextStyleV {
    TextStyleV {
        font_size: Some(opts.base_font_size),
        font_style: None,
        decoration: None,
        font_families: opts.font_families,
        color: None,
    }
}

/// The style an opening tag derives from: the top of the stack, or the
/// base style when the stack is empty.
pub open spec fn spec_parent_style(st: InterpStateV, opts: MarkdownOptionsV) -> TextStyleV {
    if st.styles.len() > 0 {
        st.styles.last()
    } else {
        spec_base_style(opts)
    }
}

/// The configured font size for a heading level.
pub open spec fn spec_heading_size(level: MdHeadingLevel, opts: MarkdownOptionsV) -> u64 {
    match level {
        MdHeadingLevel::H1 => opts.h1_font_size,
        MdHeadingLevel::H2 => opts.h2_font_size,
        MdHeadingLevel::H3 => opts.h3_font_size,
        MdHeadingLevel::H4 => opts.h4_font_size,
        MdHeadingLevel::H5 => opts.h5_font_size,
        MdHeadingLevel::H6 => opts.h6_font_size,
    }
}

/// The parent's font style record, or the all-default record when the
/// parent has none set.
pub open spec fn spec_font_style_or_default(fs: Option<FontStyle>) -> FontStyle {
    match fs {
        Some(f) => f,
        None => FontStyle::spec_default(),
    }
}

/// The tag-specific style delta: every opening tag starts from its
/// parent's fully resolved style and may only add or overwrite specific
/// fields; the innermost tag's value wins for every field it sets.
pub open spec fn spec_apply_tag(
    parent: TextStyleV,
    tag: MdTagV,
    opts: MarkdownOptionsV,
) -> TextStyleV {
    match tag {
        MdTagV::Strong => TextStyleV {
            font_style: Some(
                FontStyle {
                    weight: FontWeight::Bold,
                    ..spec_font_style_or_default(parent.font_style)
                },
            ),
            ..parent
        },
        MdTagV::Emphasis => TextStyleV {
            font_style: Some(
                FontStyle {
                    slant: FontSlant::Italic,
                    ..spec_font_style_or_default(parent.font_style)
                },
            ),
            ..parent
        },
        MdTagV::Strikethrough => TextStyleV {
            decoration: Some(TextDecoration::LineThrough),
            ..parent
        },
        MdTagV::Heading(level) => TextStyleV {
            font_style: Some(
                FontStyle {
                    weight: FontWeight::Bold,
                    ..spec_font_style_or_default(parent.font_style)
                },
            ),
            font_size: Some(spec_heading_size(level, opts)),
            ..parent
        },
        MdTagV::Link(_) => TextStyleV {
            decoration: Some(TextDecoration::Underline),
            color: Some(opts.link_color),
            ..parent
        },
        MdTagV::Paragraph => parent,
        MdTagV::CodeFence(_) => parent,
        MdTagV::Other => parent,
    }
}

/// One interpreter transition: the state after the event and the
/// segments the event emits.
pub open spec fn spec_step(st: InterpStateV, ev: MdEventV, opts: MarkdownOptionsV) -> (
    InterpStateV,
    Seq<TextSegmentV>,
) {
    match ev {
        MdEventV::Start(tag) => {
            let pushed = st.styles.push(spec_apply_tag(spec_parent_style(st, opts), tag, opts));
            let st1 = match tag {
                MdTagV::Link(dest) => InterpStateV { styles: pushed, href: Some(dest), ..st },
                MdTagV::CodeFence(lang) => InterpStateV {
                    styles: pushed,
                    in_code: true,
                    lang: Some(lang),
                    ..st
                },
                _ => InterpStateV { styles: pushed, ..st },
            };
            (st1, Seq::empty())
        },
        MdEventV::End(te) => {
            let popped = if st.styles.len() > 0 {
                st.styles.drop_last()
            } else {
                st.styles
            };
            match te {
                MdTagEnd::CodeBlock => (
                    InterpStateV {
                        styles: popped,
                        in_code: false,
                        lang: None,
                        buffer: Seq::empty(),
                        ..st
                    },
                    spec_highlight_segments(st.buffer, st.lang, opts),
                ),
                MdTagEnd::Link => (InterpStateV { styles: popped, href: None, ..st }, Seq::empty()),
                MdTagEnd::Paragraph => (
                    InterpStateV { styles: popped, pending: st.pending + seq!['\n', '\n'], ..st },
                    Seq::empty(),
                ),
                MdTagEnd::Other => (InterpStateV { styles: popped, ..st }, Seq::empty()),
            }
        },
        MdEventV::Text(t) => {
            if st.in_code {
                (InterpStateV { buffer: st.buffer + t, ..st }, Seq::empty())
            } else {
                let seg = TextSegmentV {
                    content: st.pending + t,
                    style: if st.styles.len() > 0 {
                        st.styles.last()
                    } else {
                        TextStyle::spec_with_size(DEFAULT_FONT_SIZE_TENTHS)
                    },
                    href: st.href,
                };
                (InterpStateV { pending: Seq::empty(), ..st }, seq![seg])
            }
        },
        MdEventV::SoftBreak | MdEventV::HardBreak => {
            if st.in_code {
                (InterpStateV { buffer: st.buffer.push('\n'), ..st }, Seq::empty())
            } else {
                (InterpStateV { pending: st.pending.push('\n'), ..st }, Seq::empty())
            }
        },
        MdEventV::Other => (st, Seq::empty()),
    }
}

/// The segments that interpreting the events from the given state emits,
/// in order.
pub open spec fn spec_interp_from(
    st: InterpStateV,
    events: Seq<MdEventV>,
    opts: MarkdownOptionsV,
) -> Seq<TextSegmentV>
    decreases events.len(),
{
    if events.len() == 0 {
        Seq::empty()
    } else {
        let step = spec_step(st, events[0], opts);
        step.1 + spec_interp_from(step.0, events.drop_first(), opts)
    }
}

/// The segments that interpreting the whole event stream emits.
pub open spec fn spec_interpret(events: Seq<MdEventV>, opts: MarkdownOptionsV) -> Seq<
    TextSegmentV,
> {
    spec_interp_from(spec_initial_state(), events, opts)
}

/// Copy an optional string.
fn clone_opt_string(s: &Option<String>) -> (r: Option<String>)
    ensures
        spec_opt_str(r) == spec_opt_str(*s),
{
    match s {
        Some(x) => Some(x.clone()),
        None => None,
    }
}

/// Perform one interpreter transition on the executable state, returning
/// the emitted segments.
fn exec_step(st: &mut InterpState, ev: &MdEvent, opts: &MarkdownOptions) -> (r: Vec<TextSegment>)
    ensures
        final(st)@ == spec_step(old(st)@, ev@, opts@).0,
        r.deep_view() == spec_step(old(st)@, ev@, opts@).1,
{
    let no_segments: Vec<TextSegment> = Vec::new();
    proof {
        assert(no_segments.deep_view() =~= Seq::<TextSegmentV>::empty());
    }
    match ev {
        MdEvent::Start(tag) => {
            let mut style = if st.styles.len() > 0 {
                st.styles[st.styles.len() - 1].clone()
            } else {
                let mut base = TextStyle::default_with_size(opts.base_font_size);
                base.font_families = clone_opt_strings(&opts.font_families);
                proof {
                    assert(base@ =~~= spec_base_style(opts@));
                }
                base
            };
            let ghost parent_v = style@;
            proof {
                assert(parent_v == spec_parent_style(old(st)@, opts@));
            }
            match tag {
                MdTag::Strong => {
                    let fs = match style.font_style {
                        Some(f) => f,
                        None => FontStyle::default(),
                    };
                    style.font_style = Some(FontStyle { weight: FontWeight::Bold, ..fs });
                },
                MdTag::Emphasis => {
                    let fs = match style.font_style {
                        Some(f) => f,
                        None => FontStyle::default(),
                    };
                    style.font_style = Some(FontStyle { slant: FontSlant::Italic, ..fs });
                },
                MdTag::Strikethrough => {
                    style.decoration = Some(TextDecoration::LineThrough);
                },
                MdTag::Heading(level) => {
                    let fs = match style.font_style {
                        Some(f) => f,
                        None => FontStyle::default(),
                    };
                    style.font_style = Some(FontStyle { weight: FontWeight::Bold, ..fs });
                    style.font_size = Some(
                        match level {
                            MdHeadingLevel::H1 => opts.h1_font_size,
                            MdHeadingLevel::H2 => opts.h2_font_size,
                            MdHeadingLevel::H3 => opts.h3_font_size,
                            MdHeadingLevel::H4 => opts.h4_font_size,
                            MdHeadingLevel::H5 => opts.h5_font_size,
                            MdHeadingLevel::H6 => opts.h6_font_size,
                        },
                    );
                },
                MdTag::Link(dest) => {
                    st.href = Some(dest.clone());
                    style.decoration = Some(TextDecoration::Underline);
                    style.color = Some(opts.link_color);
                },
                MdTag::CodeFence(lang) => {
                    st.in_code = true;
                    st.lang = Some(lang.clone());
                },
                MdTag::Paragraph => {},
                MdTag::Other => {},
            }
            proof {
                assert(style@ =~~= spec_apply_tag(parent_v, tag@, opts@));
            }
            st.styles.push(style);
            proof {
                assert(st@ =~~= spec_step(old(st)@, ev@, opts@).0);
            }
            no_segments
        },
        MdEvent::End(te) => {
            let mut out = no_segments;
            match te {
                MdTagEnd::CodeBlock => {
                    let code = st.buffer.clone();
                    st.buffer = String::new();
                    st.in_code = false;
                    let segs = highlight_code_block(code.as_str(), st.lang.as_ref(), opts);
                    st.lang = None;
                    out = segs;
                },
                MdTagEnd::Link => {
                    st.href = None;
                },
                MdTagEnd::Paragraph => {
                    proof {
                        reveal_strlit("\n\n");
                        assert("\n\n"@ =~= seq!['\n', '\n']);
                    }
                    st.pending.append("\n\n");
                },
                MdTagEnd::Other => {},
            }
            let _ = st.styles.pop();
            proof {
                assert(st@ =~~= spec_step(old(st)@, ev@, opts@).0);
            }
            out
        },
        MdEvent::Text(t) => {
            if st.in_code {
                st.buffer.append(t.as_str());
                proof {
                    assert(st@ =~~= spec_step(old(st)@, ev@, opts@).0);
                }
                no_segments
            } else {
                let style = if st.styles.len() > 0 {
                    st.styles[st.styles.len() - 1].clone()
                } else {
                    TextStyle::default()
                };
                let mut content = st.pending.clone();
                content.append(t.as_str());
                st.pending = String::new();
                let seg = TextSegment { content, style, href: clone_opt_string(&st.href) };
                let mut out = no_segments;
                proof {
                    assert(seg@ =~~= spec_step(old(st)@, ev@, opts@).1[0]);
                }
                out.push(seg);
                proof {
                    assert(out.deep_view() =~= spec_step(old(st)@, ev@, opts@).1);
                    assert(st@ =~~= spec_step(old(st)@, ev@, opts@).0);
                }
                out
            }
        },
        MdEvent::SoftBreak | MdEvent::HardBreak => {
            proof {
                reveal_strlit("\n");
                assert("\n"@ =~= seq!['\n']);
            }
            if st.in_code {
                st.buffer.append("\n");
            } else {
                st.pending.append("\n");
            }
            proof {
                assert(st@.buffer =~= spec_step(old(st)@, ev@, opts@).0.buffer);
                assert(st@.pending =~= spec_step(old(st)@, ev@, opts@).0.pending);
                assert(st@ =~~= spec_step(old(st)@, ev@, opts@).0);
            }
            no_segments
        },
        MdEvent::Other => {
            proof {
                assert(st@ =~~= spec_step(old(st)@, ev@, opts@).0);
            }
            no_segments
        },
    }
}

/// Interpret the whole event stream, emitting the segment sequence in
/// document order, including the highlighted code segments that replace
/// each fenced block.
pub fn interpret_events(events: &Vec<MdEvent>, opts: &MarkdownOptions) -> (r: Vec<TextSegment>)
    ensures
        r.deep_view() == spec_interpret(events.deep_view(), opts@),
{
    let ghost evs = events.deep_view();
    let mut st = InterpState {
        styles: Vec::new(),
        href: None,
        pending: String::new(),
        in_code: false,
        lang: None,
        buffer: String::new(),
    };
    let mut out: Vec<TextSegment> = Vec::new();
    proof {
        assert(st@ =~~= spec_initial_state());
        assert(evs.skip(0) =~= evs);
        assert(out.deep_view() =~= Seq::<TextSegmentV>::empty());
        assert(out.deep_view() + spec_interp_from(st@, evs, opts@) =~= spec_interp_from(
            st@,
            evs,
            opts@,
        ));
    }
    let n = events.len();
    for i in 0..n
        invariant
            n == events@.len(),
            evs == events.deep_view(),
            spec_interpret(evs, opts@) == out.deep_view() + spec_interp_from(
                st@,
                evs.skip(i as int),
                opts@,
            ),
    {
        proof {
            assert(evs.skip(i as int)[0] == evs[i as int]);
            assert(evs.skip(i as int).drop_first() =~= evs.skip(i as int + 1));
        }
        let ghost st_before = st@;
        let ghost out_before = out.deep_view();
        let mut segs = exec_step(&mut st, &events[i], opts);
        proof {
            assert(events@[i as int]@ == evs[i as int]);
        }
        out.append(&mut segs);
        proof {
            assert(out.deep_view() =~= out_before + spec_step(st_before, evs[i as int], opts@).1);
            assert(spec_interp_from(st_before, evs.skip(i as int), opts@) == spec_step(
                st_before,
                evs[i as int],
                opts@,
            ).1 + spec_interp_from(st@, evs.skip(i as int + 1), opts@));
        }
    }
    proof {
        assert(evs.skip(n as int) =~= Seq::<MdEventV>::empty());
        assert(out.deep_view() + Seq::<TextSegmentV>::empty() =~= out.deep_view());
    }
    out
}


/// One unfolding of the interpreter fold.
pub proof fn lemma_interp_unfold(st: InterpStateV, events: Seq<MdEventV>, opts: MarkdownOptionsV)
    requires
        events.len() > 0,
    ensures
        spec_interp_from(st, events, opts) == spec_step(st, events[0], opts).1 + spec_interp_from(
            spec_step(st, events[0], opts).0,
            events.drop_first(),
            opts,
        ),
{
}

/// Plain text law: a single paragraph holding one text run yields
/// exactly one segment, whose content is the text itself, whose style is
/// the base style (the options' base font size and global font-family
/// list, everything else unset), and which carries no link.
pub proof fn lemma_plain_text(t: Seq<char>, opts: MarkdownOptionsV)
    ensures
        spec_interpret(
            seq![
                MdEventV::Start(MdTagV::Paragraph),
                MdEventV::Text(t),
                MdEventV::End(MdTagEnd::Paragraph),
            ],
            opts,
        ) == seq![TextSegmentV { content: t, style: spec_base_style(opts), href: None }],
{
    let evs = seq![
        MdEventV::Start(MdTagV::Paragraph),
        MdEventV::Text(t),
        MdEventV::End(MdTagEnd::Paragraph),
    ];
    let st0 = spec_initial_state();
    let st1 = spec_step(st0, evs[0], opts).0;
    let st2 = spec_step(st1, evs[1], opts).0;
    assert(st1.styles =~= seq![spec_base_style(opts)]);
    let tail1 = evs.drop_first();
    let tail2 = tail1.drop_first();
    let tail3 = tail2.drop_first();
    assert(tail1 =~= seq![MdEventV::Text(t), MdEventV::End(MdTagEnd::Paragraph)]);
    assert(tail2 =~= seq![MdEventV::End(MdTagEnd::Paragraph)]);
    assert(tail3 =~= Seq::<MdEventV>::empty());
    let seg = TextSegmentV { content: t, style: spec_base_style(opts), href: None };
    assert(spec_step(st1, tail1[0], opts).1 =~= seq![seg]) by {
        assert(st1.pending + t =~= t);
        assert(st1.styles.last() == spec_base_style(opts));
    }
    assert(spec_interpret(evs, opts) =~= seq![seg]) by {
        lemma_interp_unfold(st0, evs, opts);
        lemma_interp_unfold(st1, tail1, opts);
        lemma_interp_unfold(st2, tail2, opts);
    }
}

/// Strong emphasis law: a paragraph holding one strong run yields one
/// segment whose content is the run's text and whose style sets the
/// font weight to Bold (width and slant stay at their defaults).
pub proof fn lemma_strong_text(t: Seq<char>, opts: MarkdownOptionsV)
    ensures
        spec_interpret(
            seq![
                MdEventV::Start(MdTagV::Paragraph),
                MdEventV::Start(MdTagV::Strong),
                MdEventV::Text(t),
                MdEventV::End(MdTagEnd::Other),
                MdEventV::End(MdTagEnd::Paragraph),
            ],
            opts,
        ) == seq![
            TextSegmentV {
                content: t,
                style: TextStyleV {
                    font_style: Some(
                        FontStyle {
                            weight: FontWeight::Bold,
                            width: FontWidth::Normal,
                            slant: FontSlant::Upright,
                        },
                    ),
                    ..spec_base_style(opts)
                },
                href: None,
            },
        ],
{
    let evs = seq![
        MdEventV::Start(MdTagV::Paragraph),
        MdEventV::Start(MdTagV::Strong),
        MdEventV::Text(t),
        MdEventV::End(MdTagEnd::Other),
        MdEventV::End(MdTagEnd::Paragraph),
    ];
    let strong_style = TextStyleV {
        font_style: Some(
            FontStyle {
                weight: FontWeight::Bold,
                width: FontWidth::Normal,
                slant: FontSlant::Upright,
            },
        ),
        ..spec_base_style(opts)
    };
    let st0 = spec_initial_state();
    let st1 = spec_step(st0, evs[0], opts).0;
    let st2 = spec_step(st1, evs[1], opts).0;
    let st3 = spec_step(st2, evs[2], opts).0;
    let st4 = spec_step(st3, evs[3], opts).0;
    assert(st1.styles =~= seq![spec_base_style(opts)]);
    assert(spec_apply_tag(spec_base_style(opts), MdTagV::Strong, opts) =~~= strong_style);
    assert(st2.styles =~= seq![spec_base_style(opts), strong_style]);
    let tail1 = evs.drop_first();
    let tail2 = tail1.drop_first();
    let tail3 = tail2.drop_first();
    let tail4 = tail3.drop_first();
    let tail5 = tail4.drop_first();
    assert(tail1 =~= evs.subrange(1, 5));
    assert(tail2 =~= evs.subrange(2, 5));
    assert(tail3 =~= evs.subrange(3, 5));
    assert(tail4 =~= evs.subrange(4, 5));
    assert(tail5 =~= Seq::<MdEventV>::empty());
    let seg = TextSegmentV { content: t, style: strong_style, href: None };
    assert(spec_step(st2, tail2[0], opts).1 =~= seq![seg]) by {
        assert(st2.pending + t =~= t);
        assert(st2.styles.last() == strong_style);
    }
    assert(spec_interpret(evs, opts) =~= seq![seg]) by {
        lemma_interp_unfold(st0, evs, opts);
        lemma_interp_unfold(st1, tail1, opts);
        lemma_interp_unfold(st2, tail2, opts);
        lemma_interp_unfold(st3, tail3, opts);
        lemma_interp_unfold(st4, tail4, opts);
    }
}

/// Link law: a paragraph holding one link with one text run yields one
/// segment whose content is the link text, whose href is the link
/// destination, whose decoration is Underline and whose color is the
/// configured link color.
pub proof fn lemma_link_text(t: Seq<char>, dest: Seq<char>, opts: MarkdownOptionsV)
    ensures
        spec_interpret(
            seq![
                MdEventV::Start(MdTagV::Paragraph),
                MdEventV::Start(MdTagV::Link(dest)),
                MdEventV::Text(t),
                MdEventV::End(MdTagEnd::Link),
                MdEventV::End(MdTagEnd::Paragraph),
            ],
            opts,
        ) == seq![
            TextSegmentV {
                content: t,
                style: TextStyleV {
                    decoration: Some(TextDecoration::Underline),
                    color: Some(opts.link_color),
                    ..spec_base_style(opts)
                },
                href: Some(dest),
            },
        ],
{
    let evs = seq![
        MdEventV::Start(MdTagV::Paragraph),
        MdEventV::Start(MdTagV::Link(dest)),
        MdEventV::Text(t),
        MdEventV::End(MdTagEnd::Link),
        MdEventV::End(MdTagEnd::Paragraph),
    ];
    let link_style = TextStyleV {
        decoration: Some(TextDecoration::Underline),
        color: Some(opts.link_color),
        ..spec_base_style(opts)
    };
    let st0 = spec_initial_state();
    let st1 = spec_step(st0, evs[0], opts).0;
    let st2 = spec_step(st1, evs[1], opts).0;
    let st3 = spec_step(st2, evs[2], opts).0;
    let st4 = spec_step(st3, evs[3], opts).0;
    assert(st1.styles =~= seq![spec_base_style(opts)]);
    assert(spec_apply_tag(spec_base_style(opts), MdTagV::Link(dest), opts) =~~= link_style);
    assert(st2.styles =~= seq![spec_base_style(opts), link_style]);
    assert(st2.href == Some(dest));
    let tail1 = evs.drop_first();
    let tail2 = tail1.drop_first();
    let tail3 = tail2.drop_first();
    let tail4 = tail3.drop_first();
    let tail5 = tail4.drop_first();
    assert(tail1 =~= evs.subrange(1, 5));
    assert(tail2 =~= evs.subrange(2, 5));
    assert(tail3 =~= evs.subrange(3, 5));
    assert(tail4 =~= evs.subrange(4, 5));
    assert(tail5 =~= Seq::<MdEventV>::empty());
    let seg = TextSegmentV { content: t, style: link_style, href: Some(dest) };
    assert(spec_step(st2, tail2[0], opts).1 =~= seq![seg]) by {
        assert(st2.pending + t =~= t);
        assert(st2.styles.last() == link_style);
    }
    assert(spec_interpret(evs, opts) =~= seq![seg]) by {
        lemma_interp_unfold(st0, evs, opts);
        lemma_interp_unfold(st1, tail1, opts);
        lemma_interp_unfold(st2, tail2, opts);
        lemma_interp_unfold(st3, tail3, opts);
        lemma_interp_unfold(st4, tail4, opts);
    }
}

/// Paragraph boundary law: two consecutive paragraphs yield exactly two
/// segments; one blank line is prefixed onto the first text segment of
/// the second paragraph, and no extra segment is emitted for the
/// boundary itself.
pub proof fn lemma_two_paragraphs(a: Seq<char>, b: Seq<char>, opts: MarkdownOptionsV)
    ensures
        spec_interpret(
            seq![
                MdEventV::Start(MdTagV::Paragraph),
                MdEventV::Text(a),
                MdEventV::End(MdTagEnd::Paragraph),
                MdEventV::Start(MdTagV::Paragraph),
                MdEventV::Text(b),
                MdEventV::End(MdTagEnd::Paragraph),
            ],
            opts,
        ) == seq![
            TextSegmentV { content: a, style: spec_base_style(opts), href: None },
            TextSegmentV {
                content: seq!['\n', '\n'] + b,
                style: spec_base_style(opts),
                href: None,
            },
        ],
{
    let evs = seq![
        MdEventV::Start(MdTagV::Paragraph),
        MdEventV::Text(a),
        MdEventV::End(MdTagEnd::Paragraph),
        MdEventV::Start(MdTagV::Paragraph),
        MdEventV::Text(b),
        MdEventV::End(MdTagEnd::Paragraph),
    ];
    let st0 = spec_initial_state();
    let st1 = spec_step(st0, evs[0], opts).0;
    let st2 = spec_step(st1, evs[1], opts).0;
    let st3 = spec_step(st2, evs[2], opts).0;
    let st4 = spec_step(st3, evs[3], opts).0;
    let st5 = spec_step(st4, evs[4], opts).0;
    assert(st1.styles =~= seq![spec_base_style(opts)]);
    assert(st3.pending =~= seq!['\n', '\n']) by {
        assert(st2.pending =~= Seq::<char>::empty());
        assert(Seq::<char>::empty() + seq!['\n', '\n'] =~= seq!['\n', '\n']);
    }
    assert(st3.styles =~= Seq::<TextStyleV>::empty());
    assert(st4.styles =~= seq![spec_base_style(opts)]);
    let tail1 = evs.drop_first();
    let tail2 = tail1.drop_first();
    let tail3 = tail2.drop_first();
    let tail4 = tail3.drop_first();
    let tail5 = tail4.drop_first();
    let tail6 = tail5.drop_first();
    assert(tail1 =~= evs.subrange(1, 6));
    assert(tail2 =~= evs.subrange(2, 6));
    assert(tail3 =~= evs.subrange(3, 6));
    assert(tail4 =~= evs.subrange(4, 6));
    assert(tail5 =~= evs.subrange(5, 6));
    assert(tail6 =~= Seq::<MdEventV>::empty());
    let seg1 = TextSegmentV { content: a, style: spec_base_style(opts), href: None };
    let seg2 = TextSegmentV {
        content: seq!['\n', '\n'] + b,
        style: spec_base_style(opts),
        href: None,
    };
    assert(spec_step(st1, tail1[0], opts).1 =~= seq![seg1]) by {
        assert(st1.pending + a =~= a);
    }
    assert(spec_step(st4, tail4[0], opts).1 =~= seq![seg2]) by {
        assert(st4.pending == st3.pending);
        assert(st4.styles.last() == spec_base_style(opts));
    }
    assert(spec_interpret(evs, opts) =~= seq![seg1, seg2]) by {
        lemma_interp_unfold(st0, evs, opts);
        lemma_interp_unfold(st1, tail1, opts);
        lemma_interp_unfold(st2, tail2, opts);
        lemma_interp_unfold(st3, tail3, opts);
        lemma_interp_unfold(st4, tail4, opts);
        lemma_interp_unfold(st5, tail5, opts);
    }
}


/// The style resolver's contract, for every tag and every parent style.
///
/// Inheritance is by value down the tag stack: the derived style keeps
/// every inherited field unless the tag itself redefines that field, and
/// it never clears a field an ancestor set. The field values a tag sets
/// depend only on the tag (and the options), so when two nested tags set
/// the same field, the innermost one wins: it is applied after the
/// parent's style is copied.
pub proof fn lemma_style_resolution(parent: TextStyleV, tag: MdTagV, opts: MarkdownOptionsV)
    ensures
        ({
            let derived = spec_apply_tag(parent, tag, opts);
            // A field an ancestor set is never cleared.
            &&& (parent.font_size is Some ==> derived.font_size is Some)
            &&& (parent.font_style is Some ==> derived.font_style is Some)
            &&& (parent.decoration is Some ==> derived.decoration is Some)
            &&& (parent.font_families is Some ==> derived.font_families is Some)
            &&& (parent.color is Some ==> derived.color is Some)
            // Each field is inherited unless this tag redefines it.
            &&& (derived.font_size == parent.font_size || tag matches MdTagV::Heading(_))
            &&& (derived.font_style == parent.font_style || tag matches MdTagV::Strong
                || tag matches MdTagV::Emphasis || tag matches MdTagV::Heading(_))
            &&& (derived.decoration == parent.decoration || tag matches MdTagV::Strikethrough
                || tag matches MdTagV::Link(_))
            &&& derived.font_families == parent.font_families
            &&& (derived.color == parent.color || tag matches MdTagV::Link(_))
            // What a tag sets is the same whatever the parent holds: the
            // innermost applier wins for every field it sets.
            &&& (tag matches MdTagV::Strong ==> derived.font_style matches Some(f) && f.weight
                == FontWeight::Bold)
            &&& (tag matches MdTagV::Emphasis ==> derived.font_style matches Some(f) && f.slant
                == FontSlant::Italic)
            &&& (tag matches MdTagV::Strikethrough ==> derived.decoration == Some(
                TextDecoration::LineThrough,
            ))
            &&& (tag matches MdTagV::Heading(level) ==> derived.font_size == Some(
                spec_heading_size(level, opts),
            ) && (derived.font_style matches Some(f) && f.weight == FontWeight::Bold))
            &&& (tag matches MdTagV::Link(_) ==> derived.decoration == Some(
                TextDecoration::Underline,
            ) && derived.color == Some(opts.link_color))
        }),
{
}


/// Fenced code block law: the text buffered between the fence events is
/// handed to the highlighter as one block, whose segments replace the
/// block in the output; and whenever the theme is known and the
/// highlighter's spans partition the code (which its contract gives at
/// every call on which no line failed), the concatenation of the emitted
/// segments' contents is the buffered code exactly: highlighting
/// partitions but never drops or reorders characters.
pub proof fn lemma_fenced_block(code: Seq<char>, lang: Seq<char>, opts: MarkdownOptionsV)
    ensures
        spec_interpret(
            seq![
                MdEventV::Start(MdTagV::CodeFence(lang)),
                MdEventV::Text(code),
                MdEventV::End(MdTagEnd::CodeBlock),
            ],
            opts,
        ) == spec_highlight_segments(code, Some(lang), opts),
        theme_known(opts.theme) && spec_concat_span_texts(
            highlight_result_of(code, spec_effective_lang(Some(lang)), opts.theme).0,
        ) == code ==> spec_concat_contents(
            spec_interpret(
                seq![
                    MdEventV::Start(MdTagV::CodeFence(lang)),
                    MdEventV::Text(code),
                    MdEventV::End(MdTagEnd::CodeBlock),
                ],
                opts,
            ),
        ) == code,
{
    let evs = seq![
        MdEventV::Start(MdTagV::CodeFence(lang)),
        MdEventV::Text(code),
        MdEventV::End(MdTagEnd::CodeBlock),
    ];
    let st0 = spec_initial_state();
    let st1 = spec_step(st0, evs[0], opts).0;
    let st2 = spec_step(st1, evs[1], opts).0;
    assert(st1.in_code);
    assert(st1.lang == Some(lang));
    assert(st2.buffer =~= code);
    assert(st2.lang == Some(lang));
    let tail1 = evs.drop_first();
    let tail2 = tail1.drop_first();
    let tail3 = tail2.drop_first();
    assert(tail1 =~= evs.subrange(1, 3));
    assert(tail2 =~= evs.subrange(2, 3));
    assert(tail3 =~= Seq::<MdEventV>::empty());
    assert(spec_step(st2, tail2[0], opts).1 == spec_highlight_segments(code, Some(lang), opts));
    assert(spec_interpret(evs, opts) =~= spec_highlight_segments(code, Some(lang), opts)) by {
        lemma_interp_unfold(st0, evs, opts);
        lemma_interp_unfold(st1, tail1, opts);
        lemma_interp_unfold(st2, tail2, opts);
    }
    if theme_known(opts.theme) {
        lemma_span_segments_keep_text(
            highlight_result_of(code, spec_effective_lang(Some(lang)), opts.theme).0,
            opts,
        );
    }
}

} // verus!
