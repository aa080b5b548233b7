use md_segments::options::MarkdownOptions;
use md_segments::parse_markdown;
use md_segments::style::{
    FontSlant, FontStyle, FontWeight, FontWidth, Rgba, TextDecoration, TextStyle,
    DEFAULT_FONT_SIZE_TENTHS,
};

fn default_base_style() -> TextStyle {
    TextStyle {
        font_size: Some(DEFAULT_FONT_SIZE_TENTHS),
        font_style: None,
        decoration: None,
        font_families: None,
        color: None,
    }
}

#[test]
fn plain_text_yields_one_default_segment() {
    let opts = MarkdownOptions::default();
    let segs = parse_markdown("Hello world", &opts);
    assert_eq!(segs.len(), 1);
    assert_eq!(segs[0].content, "Hello world");
    assert_eq!(segs[0].style, default_base_style());
    assert_eq!(segs[0].href, None);
}

#[test]
fn empty_input_yields_no_segments() {
    let opts = MarkdownOptions::default();
    let segs = parse_markdown("", &opts);
    assert_eq!(segs.len(), 0);
}

#[test]
fn bold_sets_weight() {
    let opts = MarkdownOptions::default();
    let segs = parse_markdown("**bold**", &opts);
    assert_eq!(segs.len(), 1);
    assert_eq!(segs[0].content, "bold");
    assert_eq!(
        segs[0].style.font_style,
        Some(FontStyle {
            weight: FontWeight::Bold,
            width: FontWidth::Normal,
            slant: FontSlant::Upright,
        })
    );
    assert_eq!(segs[0].href, None);
}

#[test]
fn emphasis_sets_slant() {
    let opts = MarkdownOptions::default();
    let segs = parse_markdown("*lean*", &opts);
    assert_eq!(segs.len(), 1);
    assert_eq!(segs[0].content, "lean");
    assert_eq!(segs[0].style.font_style.as_ref().unwrap().slant, FontSlant::Italic);
}

#[test]
fn strikethrough_sets_decoration() {
    let opts = MarkdownOptions::default();
    let segs = parse_markdown("~~gone~~", &opts);
    assert_eq!(segs.len(), 1);
    assert_eq!(segs[0].content, "gone");
    assert_eq!(segs[0].style.decoration, Some(TextDecoration::LineThrough));
}

#[test]
fn explicit_link_segment() {
    let opts = MarkdownOptions::default();
    let segs = parse_markdown("[text](https://example.com)", &opts);
    assert_eq!(segs.len(), 1);
    assert_eq!(segs[0].content, "text");
    assert_eq!(segs[0].href.as_deref(), Some("https://example.com"));
    assert_eq!(segs[0].style.decoration, Some(TextDecoration::Underline));
    assert_eq!(segs[0].style.color, Some(Rgba { r: 0, g: 122, b: 255, a: 255 }));
}

#[test]
fn bare_url_becomes_link() {
    let opts = MarkdownOptions::default();
    let segs = parse_markdown("Visit https://x.com now", &opts);
    assert_eq!(segs.len(), 3);
    assert_eq!(segs[0].content, "Visit ");
    assert_eq!(segs[0].href, None);
    assert_eq!(segs[1].content, "https://x.com");
    assert_eq!(segs[1].href.as_deref(), Some("https://x.com"));
    assert_eq!(segs[1].style.decoration, Some(TextDecoration::Underline));
    assert_eq!(segs[2].content, " now");
    assert_eq!(segs[2].href, None);
}

#[test]
fn angle_autolink_form_gives_same_link() {
    let opts = MarkdownOptions::default();
    let segs = parse_markdown("https://x.com", &opts);
    assert_eq!(segs.len(), 1);
    assert_eq!(segs[0].content, "https://x.com");
    assert_eq!(segs[0].href.as_deref(), Some("https://x.com"));
}

#[test]
fn mailto_is_never_autolinked() {
    let opts = MarkdownOptions::default();
    let segs = parse_markdown("Write mailto:bob at once", &opts);
    assert_eq!(segs.len(), 1);
    assert_eq!(segs[0].content, "Write mailto:bob at once");
    assert_eq!(segs[0].href, None);
}

#[test]
fn schemeless_text_is_never_autolinked() {
    let opts = MarkdownOptions::default();
    let segs = parse_markdown("see example.com today", &opts);
    assert_eq!(segs.len(), 1);
    assert_eq!(segs[0].href, None);
}

#[test]
fn heading_sets_size_and_weight() {
    let opts = MarkdownOptions::default();
    let segs = parse_markdown("# Title", &opts);
    assert_eq!(segs.len(), 1);
    assert_eq!(segs[0].content, "Title");
    // H1 = 18.0 pt * 2.6 = 46.8 pt = 468 tenths.
    assert_eq!(segs[0].style.font_size, Some(468));
    assert_eq!(segs[0].style.font_style.as_ref().unwrap().weight, FontWeight::Bold);
}

#[test]
fn two_paragraphs_one_blank_line() {
    let opts = MarkdownOptions::default();
    let segs = parse_markdown("First paragraph.\n\nSecond paragraph.", &opts);
    assert_eq!(segs.len(), 2);
    assert_eq!(segs[0].content, "First paragraph.");
    assert_eq!(segs[1].content, "\n\nSecond paragraph.");
    for seg in &segs {
        assert!(!seg.content.is_empty());
    }
}

#[test]
fn single_newline_becomes_hard_break() {
    let opts = MarkdownOptions::default();
    let segs = parse_markdown("alpha\nbeta", &opts);
    assert_eq!(segs.len(), 2);
    assert_eq!(segs[0].content, "alpha");
    assert_eq!(segs[1].content, "\nbeta");
}

#[test]
fn conversion_is_idempotent() {
    let opts = MarkdownOptions::default();
    let text = "# Head\n\nbody **bold** and [l](https://e.com)\n\n```\ncode\n```\n";
    let first = parse_markdown(text, &opts);
    let second = parse_markdown(text, &opts);
    assert_eq!(first, second);
}

#[test]
fn nested_strikethrough_in_link_innermost_wins() {
    let opts = MarkdownOptions::default();
    let segs = parse_markdown("[~~x~~](https://e.com)", &opts);
    // The strikethrough is nested inside the link, so its decoration
    // overwrites the link's underline for the inner run.
    assert_eq!(segs.len(), 1);
    assert_eq!(segs[0].content, "x");
    assert_eq!(segs[0].style.decoration, Some(TextDecoration::LineThrough));
    assert_eq!(segs[0].href.as_deref(), Some("https://e.com"));
    assert_eq!(segs[0].style.color, Some(Rgba { r: 0, g: 122, b: 255, a: 255 }));
}

#[test]
fn smallest_heading_uses_h6_size() {
    let opts = MarkdownOptions::default();
    let segs = parse_markdown("###### tiny", &opts);
    assert_eq!(segs.len(), 1);
    assert_eq!(segs[0].content, "tiny");
    // H6 = 18.0 pt * 0.85 = 15.3 pt = 153 tenths.
    assert_eq!(segs[0].style.font_size, Some(153));
}

#[test]
fn decoration_and_weight_codes() {
    assert_eq!(FontWeight::Invisible.code(), 0);
    assert_eq!(FontWeight::Normal.code(), 400);
    assert_eq!(FontWeight::Bold.code(), 700);
    assert_eq!(FontWeight::ExtraBlack.code(), 1000);
    assert_eq!(FontWidth::UltraCondensed.code(), 1);
    assert_eq!(FontWidth::Normal.code(), 5);
    assert_eq!(FontWidth::UltraExpanded.code(), 9);
    assert_eq!(FontSlant::Upright.code(), 0);
    assert_eq!(FontSlant::Italic.code(), 1);
    assert_eq!(FontSlant::Oblique.code(), 2);
    assert_eq!(TextDecoration::NoDecoration.code(), 0);
    assert_eq!(TextDecoration::Underline.code(), 1);
    assert_eq!(TextDecoration::Overline.code(), 2);
    assert_eq!(TextDecoration::LineThrough.code(), 4);
}
