use md_segments::cache::{HostValue, Materializer};
use md_segments::options::MarkdownOptions;
use md_segments::parse_markdown;
use md_segments::style::{FontSlant, FontStyle, FontWeight, FontWidth, Rgba, TextStyle};

#[test]
fn string_interned_once() {
    let mut m = Materializer::new();
    let s = String::from("hello");
    let id1 = m.intern_string(&s);
    let log_len = m.log.len();
    let id2 = m.intern_string(&s);
    assert_eq!(id1, id2);
    // The second call reuses the built value: nothing new constructed.
    assert_eq!(m.log.len(), log_len);
    match &m.log[id1] {
        HostValue::Str(content) => assert_eq!(content, "hello"),
        other => panic!("expected a string instruction, got {:?} variant", discriminant(other)),
    }
}

fn discriminant(hv: &HostValue) -> usize {
    match hv {
        HostValue::Str(_) => 0,
        HostValue::PropName(_) => 1,
        HostValue::Color(_) => 2,
        HostValue::FontStyleObj { .. } => 3,
        HostValue::FamilyList(_) => 4,
        HostValue::StyleObj { .. } => 5,
        HostValue::SegmentObj { .. } => 6,
    }
}

#[test]
fn distinct_strings_get_distinct_handles() {
    let mut m = Materializer::new();
    let id1 = m.intern_string(&String::from("a"));
    let id2 = m.intern_string(&String::from("b"));
    assert_ne!(id1, id2);
}

#[test]
fn prop_name_interned_once() {
    let mut m = Materializer::new();
    let id1 = m.intern_prop_name("fontSize");
    let id2 = m.intern_prop_name("fontSize");
    let id3 = m.intern_prop_name("color");
    assert_eq!(id1, id2);
    assert_ne!(id1, id3);
    match &m.log[id1] {
        HostValue::PropName(name) => assert_eq!(name, "fontSize"),
        _ => panic!("expected a property-name instruction"),
    }
}

#[test]
fn color_interned_once() {
    let mut m = Materializer::new();
    let c = Rgba { r: 1, g: 2, b: 3, a: 255 };
    let id1 = m.intern_color(c);
    let id2 = m.intern_color(c);
    assert_eq!(id1, id2);
    assert_eq!(m.log.len(), 1);
}

#[test]
fn font_style_instruction_carries_codes() {
    let mut m = Materializer::new();
    let fs = FontStyle {
        weight: FontWeight::Bold,
        width: FontWidth::Condensed,
        slant: FontSlant::Italic,
    };
    let id = m.intern_font_style(fs);
    match m.log[id] {
        HostValue::FontStyleObj { weight, width, slant } => {
            assert_eq!(weight, 700);
            assert_eq!(width, 3);
            assert_eq!(slant, 1);
        },
        _ => panic!("expected a font-style instruction"),
    }
}

#[test]
fn families_reuse_member_strings() {
    let mut m = Materializer::new();
    let solo = m.intern_string(&String::from("Inter"));
    let fams = vec![String::from("Inter"), String::from("Arial")];
    let fam_id = m.intern_families(&fams);
    match &m.log[fam_id] {
        HostValue::FamilyList(ids) => {
            assert_eq!(ids.len(), 2);
            // The first member was already built: its handle is reused.
            assert_eq!(ids[0], solo);
        },
        _ => panic!("expected a family-list instruction"),
    }
    // Interning the same list again is a pure cache hit.
    let log_len = m.log.len();
    assert_eq!(m.intern_families(&fams), fam_id);
    assert_eq!(m.log.len(), log_len);
}

fn sample_style() -> TextStyle {
    TextStyle {
        font_size: Some(200),
        font_style: Some(FontStyle {
            weight: FontWeight::Bold,
            width: FontWidth::Normal,
            slant: FontSlant::Upright,
        }),
        decoration: None,
        font_families: Some(vec![String::from("monospace")]),
        color: Some(Rgba { r: 9, g: 8, b: 7, a: 255 }),
    }
}

#[test]
fn style_memoized_by_structural_value() {
    let opts = MarkdownOptions::default();
    let mut m = Materializer::new();
    let id1 = m.materialize_style(&sample_style(), &opts);
    let log_len = m.log.len();
    // A structurally equal but separately constructed style hits the
    // cache.
    let id2 = m.materialize_style(&sample_style(), &opts);
    assert_eq!(id1, id2);
    assert_eq!(m.log.len(), log_len);
    match &m.log[id1] {
        HostValue::StyleObj { font_size, font_style, decoration, font_families, color, height_multiplier } => {
            assert_eq!(*font_size, Some(200));
            assert!(font_style.is_some());
            assert_eq!(*decoration, None);
            assert!(font_families.is_some());
            assert!(color.is_some());
            // Default multiplier 1.0 is left off the style object.
            assert_eq!(*height_multiplier, None);
        },
        _ => panic!("expected a style instruction"),
    }
}

#[test]
fn height_multiplier_attached_only_when_not_one() {
    let mut opts = MarkdownOptions::default();
    opts.height_multiplier = 1500;
    let mut m = Materializer::new();
    let id = m.materialize_style(&sample_style(), &opts);
    match &m.log[id] {
        HostValue::StyleObj { height_multiplier, .. } => {
            assert_eq!(*height_multiplier, Some(1500));
        },
        _ => panic!("expected a style instruction"),
    }
}

#[test]
fn decoration_code_on_style_object() {
    let opts = MarkdownOptions::default();
    let mut m = Materializer::new();
    let style = TextStyle {
        font_size: None,
        font_style: None,
        decoration: Some(md_segments::style::TextDecoration::LineThrough),
        font_families: None,
        color: None,
    };
    let id = m.materialize_style(&style, &opts);
    match &m.log[id] {
        HostValue::StyleObj { decoration, .. } => assert_eq!(*decoration, Some(4)),
        _ => panic!("expected a style instruction"),
    }
}

#[test]
fn segments_share_cached_parts_across_calls() {
    let opts = MarkdownOptions::default();
    let mut m = Materializer::new();
    let segs = parse_markdown("**same** and **same**", &opts);
    let handles1 = m.materialize_segments(&segs, &opts);
    assert_eq!(handles1.len(), segs.len());
    let style_of = |m: &Materializer, h: usize| match m.log[h] {
        HostValue::SegmentObj { style, .. } => style,
        _ => panic!("expected a segment instruction"),
    };
    // Both bold runs share one materialized style.
    assert_eq!(style_of(&m, handles1[0]), style_of(&m, handles1[2]));
    // A second conversion of the same input reuses every cached part:
    // the shared style handle is identical across the two calls.
    let segs2 = parse_markdown("**same** and **same**", &opts);
    let handles2 = m.materialize_segments(&segs2, &opts);
    assert_eq!(style_of(&m, handles1[0]), style_of(&m, handles2[0]));
    // Segment objects themselves are fresh per call.
    assert_ne!(handles1[0], handles2[0]);
}

#[test]
fn segment_content_handle_points_at_its_text() {
    let opts = MarkdownOptions::default();
    let mut m = Materializer::new();
    let segs = parse_markdown("hi", &opts);
    let handles = m.materialize_segments(&segs, &opts);
    match m.log[handles[0]] {
        HostValue::SegmentObj { content, href, .. } => {
            assert!(href.is_none());
            match &m.log[content] {
                HostValue::Str(s) => assert_eq!(s, "hi"),
                _ => panic!("expected the content string"),
            }
        },
        _ => panic!("expected a segment instruction"),
    }
}

#[test]
fn log_references_only_point_backwards() {
    let opts = MarkdownOptions::default();
    let mut m = Materializer::new();
    let segs = parse_markdown("# T\n\n[l](https://e.com) **b**\n\n```\nc\n```\n", &opts);
    m.materialize_segments(&segs, &opts);
    for (i, hv) in m.log.iter().enumerate() {
        match hv {
            HostValue::FamilyList(ids) => assert!(ids.iter().all(|id| *id < i)),
            HostValue::StyleObj { font_style, font_families, color, .. } => {
                assert!(font_style.map_or(true, |id| id < i));
                assert!(font_families.map_or(true, |id| id < i));
                assert!(color.map_or(true, |id| id < i));
            },
            HostValue::SegmentObj { content, href, style } => {
                assert!(*content < i);
                assert!(href.map_or(true, |id| id < i));
                assert!(*style < i);
            },
            _ => {},
        }
    }
}
