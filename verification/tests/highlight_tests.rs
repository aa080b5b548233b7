use md_segments::highlight::highlight_code_block;
use md_segments::options::MarkdownOptions;
use md_segments::parse_markdown;

#[test]
fn highlight_concat_restores_code() {
    let opts = MarkdownOptions::default();
    let code = "let x = 1;\nlet y = \"two\";\n";
    let lang = String::from("rust");
    let segs = highlight_code_block(code, Some(&lang), &opts);
    assert!(segs.len() > 1);
    let mut joined = String::new();
    for seg in &segs {
        joined.push_str(&seg.content);
    }
    assert_eq!(joined, code);
}

#[test]
fn highlight_plain_text_concat_restores_code() {
    let opts = MarkdownOptions::default();
    let code = "just some words\nand a second line\n";
    let segs = highlight_code_block(code, None, &opts);
    let mut joined = String::new();
    for seg in &segs {
        joined.push_str(&seg.content);
    }
    assert_eq!(joined, code);
}

#[test]
fn highlight_segments_carry_code_style() {
    let opts = MarkdownOptions::default();
    let code = "fn main() {}\n";
    let lang = String::from("rust");
    let segs = highlight_code_block(code, Some(&lang), &opts);
    assert!(!segs.is_empty());
    for seg in &segs {
        assert_eq!(seg.style.font_size, Some(opts.base_font_size));
        assert_eq!(seg.style.font_families, Some(vec![String::from("monospace")]));
        let color = seg.style.color.expect("every range has a foreground color");
        assert_eq!(color.a, 255);
        assert_eq!(seg.href, None);
        assert_eq!(seg.style.font_style, None);
        assert_eq!(seg.style.decoration, None);
    }
}

#[test]
fn unknown_language_falls_back_to_plain_text() {
    let opts = MarkdownOptions::default();
    let code = "whatever body\n";
    let lang = String::from("nosuchlanguage123");
    let with_unknown = highlight_code_block(code, Some(&lang), &opts);
    let with_none = highlight_code_block(code, None, &opts);
    assert_eq!(with_unknown, with_none);
}

#[test]
fn unknown_theme_drops_the_block() {
    let mut opts = MarkdownOptions::default();
    opts.theme = String::from("no-such-theme");
    let code = "abc\n";
    let segs = highlight_code_block(code, None, &opts);
    assert_eq!(segs.len(), 0);
}

#[test]
fn unknown_theme_drops_fenced_block_from_output() {
    let mut opts = MarkdownOptions::default();
    opts.theme = String::from("no-such-theme");
    let segs = parse_markdown("before\n\n```\ncode\n```\n", &opts);
    // The fenced block silently disappears; the preceding paragraph
    // stays.
    assert!(segs.iter().all(|s| !s.content.contains("code")));
    assert!(segs.iter().any(|s| s.content.contains("before")));
}

#[test]
fn fenced_block_emits_highlighted_segments() {
    let opts = MarkdownOptions::default();
    let segs = parse_markdown("```\nplain code here\n```\n", &opts);
    assert!(!segs.is_empty());
    let joined: String = segs.iter().map(|s| s.content.as_str()).collect();
    assert!(joined.contains("plain code here"));
    for seg in &segs {
        assert_eq!(seg.style.font_families, Some(vec![String::from("monospace")]));
    }
}

#[test]
fn known_language_highlights_differently_from_plain() {
    let opts = MarkdownOptions::default();
    let code = "let x = \"s\"; // note\n";
    let lang = String::from("rust");
    let rust = highlight_code_block(code, Some(&lang), &opts);
    let plain = highlight_code_block(code, None, &opts);
    let distinct = |segs: &Vec<md_segments::segment::TextSegment>| {
        let mut colors: Vec<_> = segs.iter().map(|s| s.style.color.unwrap()).collect();
        colors.sort_by_key(|c| (c.r, c.g, c.b, c.a));
        colors.dedup();
        colors.len()
    };
    // A real grammar assigns several foreground colors; the plain-text
    // grammar assigns one.
    assert!(distinct(&rust) > 1);
    assert_eq!(distinct(&plain), 1);
}
