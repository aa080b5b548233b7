//! Fenced-code highlighting. The text of a closed fenced block is
//! re-tokenized line by line against a language grammar and theme by the
//! syntect library; each contiguous highlight range becomes one segment
//! whose style carries the base font size, the code block font family
//! and the range's foreground color.
//!
//! An unknown theme name makes the whole block disappear from the output
//! (no error is surfaced); an unknown language token falls back to the
//! plain-text grammar.
use vstd::prelude::*;

use crate::options::{MarkdownOptions, MarkdownOptionsV};
use crate::segment::{spec_concat_contents, TextSegment, TextSegmentV};
use crate::style::{Rgba, TextStyleV};

verus! {

use syntect::easy::HighlightLines;
use syntect::highlighting::ThemeSet;
use syntect::parsing::SyntaxSet;
use syntect::util::LinesWithEndings;

/// One contiguous highlight range: its text and its foreground color.
#[derive(Clone, Debug, PartialEq, Eq)]
pub struct HighlightSpan {
    pub text: String,
    pub color: Rgba,
}

/// Mathematical model of a [`HighlightSpan`].
#[verifier::ext_equal]
pub ghost struct HighlightSpanV {
    pub text: Seq<char>,
    pub color: Rgba,
}

impl View for HighlightSpan {
    type V = HighlightSpanV;

    open spec fn view(&self) -> HighlightSpanV {
        HighlightSpanV { text: self.text@, color: self.color }
    }
}

impl DeepView for HighlightSpan {
    type V = HighlightSpanV;

    open spec fn deep_view(&self) -> HighlightSpanV {
        self.view()
    }
}

/// Whether the default theme set holds a theme of this name.
pub uninterp spec fn theme_known(name: Seq<char>) -> bool;

/// Whether the default syntax set holds a grammar matching this language
/// token (the lookup is case- and alias-insensitive).
pub uninterp spec fn syntax_token_known(token: Seq<char>) -> bool;

/// What highlighting the code against the given grammar and theme
/// yields: the spans in line order then range order, and whether every
/// line highlighted cleanly (no line was skipped).
pub uninterp spec fn highlight_result_of(
    code: Seq<char>,
    lang: Option<Seq<char>>,
    theme: Seq<char>,
) -> (Seq<HighlightSpanV>, bool);

/// The concatenation of the spans' texts, in order.
pub open spec fn spec_concat_span_texts(spans: Seq<HighlightSpanV>) -> Seq<char>
    decreases spans.len(),
{
    if spans.len() == 0 {
        Seq::empty()
    } else {
        spans[0].text + spec_concat_span_texts(spans.drop_first())
    }
}

/// Relies on syntect's `ThemeSet::load_defaults`: whether the bundled
/// default theme set contains a theme of this name; depends on the name
/// alone.
#[verifier::external_body]
pub(crate) fn theme_exists(name: &str) -> (r: bool)
    ensures
        r == theme_known(name@),
{
    syntect::highlighting::ThemeSet::load_defaults().themes.contains_key(name)
}

/// Relies on syntect's `SyntaxSet::find_syntax_by_token` over the
/// bundled default syntaxes: whether a grammar matches this language
/// token; depends on the token alone.
#[verifier::external_body]
pub(crate) fn syntax_exists(token: &str) -> (r: bool)
    ensures
        r == syntax_token_known(token@),
{
    syntect::parsing::SyntaxSet::load_defaults_newlines().find_syntax_by_token(token).is_some()
}

/// The language as a spec value, for contracts over an optional token.
pub open spec fn opt_lang_view(lang: Option<&String>) -> Option<Seq<char>> {
    match lang {
        Some(l) => Some(l@),
        None => None,
    }
}

/// Relies on syntect: resolves the theme by name from the bundled
/// defaults, the grammar by token from the bundled default syntaxes
/// (plain text for `None`), and drives `HighlightLines::highlight_line`
/// over `LinesWithEndings`, keeping highlighter state across lines of
/// the block. Yields one (text, foreground color) span per contiguous
/// range, in line order then range order. A line whose highlighting
/// fails is skipped and clears the second component; when it stays true,
/// the spans' texts concatenate to the code exactly (`LinesWithEndings`
/// partitions the code, and `HighlightIterator` documents that its
/// tokens concatenate to the line). Depends on (code, language, theme)
/// alone.
#[verifier::external_type_specification]
#[verifier::external_body]
pub struct ExSyntectStyle(syntect::highlighting::Style);

/// Relies on syntect's `Style`: moves one highlighted range's text and
/// foreground color components into a span.
#[verifier::external_body]
fn span_of(st: syntect::highlighting::Style, txt: &str) -> HighlightSpan {
    let fg = st.foreground;
    HighlightSpan { text: txt.to_string(), color: Rgba { r: fg.r, g: fg.g, b: fg.b, a: fg.a } }
}

#[verifier::external_body]
fn highlight_block(code: &str, lang: Option<&String>, theme_name: &str) -> (r: (
    Vec<HighlightSpan>,
    bool,
))
    requires
        theme_known(theme_name@),
        lang matches Some(l) ==> syntax_token_known(l@),
    ensures
        (r.0.deep_view(), r.1) == highlight_result_of(code@, opt_lang_view(lang), theme_name@),
        r.1 ==> spec_concat_span_texts(r.0.deep_view()) == code@,
{
    let (ss, ts) = (SyntaxSet::load_defaults_newlines(), ThemeSet::load_defaults());
    let syntax = match lang {
        Some(l) => ss.find_syntax_by_token(l).unwrap(),
        None => ss.find_syntax_plain_text(),
    };
    let mut h = HighlightLines::new(syntax, &ts.themes[theme_name]);
    let (mut spans, mut clean) = (Vec::new(), true);
    for line in LinesWithEndings::from(code) {
        match h.highlight_line(line, &ss) {
            Ok(rs) => spans.extend(rs.into_iter().map(|(st, t)| span_of(st, t))),
            Err(_) => clean = false,
        }
    }
    (spans, clean)
}

/// The effective grammar token: an unknown token falls back to the
/// plain-text grammar, exactly as an absent one.
pub open spec fn spec_effective_lang(lang: Option<Seq<char>>) -> Option<Seq<char>> {
    match lang {
        Some(l) => if syntax_token_known(l) {
            Some(l)
        } else {
            None
        },
        None => None,
    }
}

/// The segment one highlight range becomes: its text, the base font
/// size, the code block font family as the only family, the range's
/// foreground color with full alpha, no link.
pub open spec fn spec_span_segment(span: HighlightSpanV, opts: MarkdownOptionsV) -> TextSegmentV {
    TextSegmentV {
        content: span.text,
        style: TextStyleV {
            font_size: Some(opts.base_font_size),
            font_style: None,
            decoration: None,
            font_families: Some(seq![opts.code_block_font_family]),
            color: Some(Rgba { r: span.color.r, g: span.color.g, b: span.color.b, a: 255 }),
        },
        href: None,
    }
}

/// The segments a fenced code block contributes: empty when the theme is
/// unknown, otherwise one segment per highlight range, in order.
pub open spec fn spec_highlight_segments(
    code: Seq<char>,
    lang: Option<Seq<char>>,
    opts: MarkdownOptionsV,
) -> Seq<TextSegmentV> {
    if !theme_known(opts.theme) {
        Seq::empty()
    } else {
        highlight_result_of(code, spec_effective_lang(lang), opts.theme).0.map_values(
            |s: HighlightSpanV| spec_span_segment(s, opts),
        )
    }
}

/// Turning spans into segments keeps their texts: the concatenation of
/// the segments' contents is the concatenation of the spans' texts.
pub proof fn lemma_span_segments_keep_text(spans: Seq<HighlightSpanV>, opts: MarkdownOptionsV)
    ensures
        spec_concat_contents(spans.map_values(|s: HighlightSpanV| spec_span_segment(s, opts)))
            == spec_concat_span_texts(spans),
    decreases spans.len(),
{
    let f = |s: HighlightSpanV| spec_span_segment(s, opts);
    if spans.len() == 0 {
        assert(spans.map_values(f) =~= Seq::<TextSegmentV>::empty());
    } else {
        lemma_span_segments_keep_text(spans.drop_first(), opts);
        assert(spans.map_values(f).drop_first() =~= spans.drop_first().map_values(f));
        assert(spans.map_values(f)[0] == f(spans[0]));
    }
}

/// Highlight the accumulated text of one fenced code block.
///
/// An unknown theme yields the empty segment list; an unknown language
/// token falls back to plain text. When every line highlights cleanly,
/// the emitted segments' contents concatenate to the code exactly.
pub fn highlight_code_block(code: &str, language: Option<&String>, opts: &MarkdownOptions) -> (r:
    Vec<TextSegment>)
    ensures
        r.deep_view() == spec_highlight_segments(code@, opt_lang_view(language), opts@),
        theme_known(opts@.theme) && highlight_result_of(
            code@,
            spec_effective_lang(opt_lang_view(language)),
            opts@.theme,
        ).1 ==> spec_concat_contents(r.deep_view()) == code@,
{
    if !theme_exists(opts.theme.as_str()) {
        let r: Vec<TextSegment> = Vec::new();
        proof {
            assert(r.deep_view() =~= Seq::<TextSegmentV>::empty());
        }
        return r;
    }
    let effective: Option<&String> = match language {
        Some(l) => if syntax_exists(l.as_str()) {
            Some(l)
        } else {
            None
        },
        None => None,
    };
    let pair = highlight_block(code, effective, opts.theme.as_str());
    let spans = pair.0;
    let ghost spans_v = spans.deep_view();
    let ghost f = |s: HighlightSpanV| spec_span_segment(s, opts@);
    let mut out: Vec<TextSegment> = Vec::new();
    proof {
        assert(out.deep_view() =~= spans_v.take(0).map_values(f));
    }
    let n = spans.len();
    for i in 0..n
        invariant
            n == spans@.len(),
            spans_v == spans.deep_view(),
            f == (|s: HighlightSpanV| spec_span_segment(s, opts@)),
            out.deep_view() == spans_v.take(i as int).map_values(f),
    {
        let span = &spans[i];
        let mut fams: Vec<String> = Vec::new();
        fams.push(opts.code_block_font_family.clone());
        let seg = TextSegment {
            content: span.text.clone(),
            style: crate::style::TextStyle {
                font_size: Some(opts.base_font_size),
                font_style: None,
                decoration: None,
                font_families: Some(fams),
                color: Some(Rgba { r: span.color.r, g: span.color.g, b: span.color.b, a: 255 }),
            },
            href: None,
        };
        proof {
            assert(fams.deep_view() =~= seq![opts@.code_block_font_family]);
            assert(seg@ =~~= f(spans_v[i as int]));
        }
        let ghost out_prev = out.deep_view();
        out.push(seg);
        proof {
            assert(out.deep_view() =~= out_prev.push(f(spans_v[i as int])));
            assert(spans_v.take(i as int + 1).map_values(f) =~= spans_v.take(i as int).map_values(
                f,
            ).push(f(spans_v[i as int])));
        }
    }
    proof {
        assert(spans_v.take(n as int) =~= spans_v);
        lemma_span_segments_keep_text(spans_v, opts@);
    }
    out
}

} // verus!
