use md_segments::options::{scale_size, MarkdownOptions, OptionFields};
use md_segments::style::Rgba;

#[test]
fn defaults_match_base_18() {
    let opts = MarkdownOptions::default();
    assert_eq!(opts.base_font_size, 180);
    assert_eq!(opts.h1_font_size, 468); // 46.8 pt
    assert_eq!(opts.h2_font_size, 396); // 39.6 pt
    assert_eq!(opts.h3_font_size, 324); // 32.4 pt
    assert_eq!(opts.h4_font_size, 234); // 23.4 pt
    assert_eq!(opts.h5_font_size, 180); // 18.0 pt
    assert_eq!(opts.h6_font_size, 153); // 15.3 pt
    assert_eq!(opts.link_color, Rgba { r: 0, g: 122, b: 255, a: 255 });
    assert_eq!(opts.height_multiplier, 1000);
    assert_eq!(opts.font_families, None);
    assert_eq!(opts.code_block_font_family, "monospace");
    assert_eq!(opts.theme, "base16-ocean.dark");
}

#[test]
fn base_20_derives_h1_52_and_h6_17() {
    let mut fields = OptionFields::empty();
    fields.base_font_size = Some(200); // 20.0 pt
    let opts = MarkdownOptions::from_fields(fields).unwrap();
    assert_eq!(opts.h1_font_size, 520); // 52.0 = 20 * 2.6
    assert_eq!(opts.h6_font_size, 170); // 17.0 = 20 * 0.85
}

#[test]
fn explicit_heading_size_overrides_derivation() {
    let mut fields = OptionFields::empty();
    fields.base_font_size = Some(200);
    fields.h1_font_size = Some(999);
    let opts = MarkdownOptions::from_fields(fields).unwrap();
    assert_eq!(opts.h1_font_size, 999);
    assert_eq!(opts.h2_font_size, 440); // still derived: 20 * 2.2
}

#[test]
fn link_color_of_three_elements_rejects_whole_options() {
    let mut fields = OptionFields::empty();
    fields.base_font_size = Some(300);
    fields.link_color = Some(vec![1, 2, 3]);
    assert!(MarkdownOptions::from_fields(fields).is_none());

    let mut fields2 = OptionFields::empty();
    fields2.base_font_size = Some(300);
    fields2.link_color = Some(vec![1, 2, 3]);
    let opts = MarkdownOptions::from_fields_or_default(fields2);
    // The whole record reverts to the full defaults, including the
    // unrelated base font size.
    assert_eq!(opts, MarkdownOptions::default());
    assert_eq!(opts.base_font_size, 180);
}

#[test]
fn link_color_of_four_elements_is_accepted() {
    let mut fields = OptionFields::empty();
    fields.link_color = Some(vec![10, 20, 30, 40]);
    let opts = MarkdownOptions::from_fields(fields).unwrap();
    assert_eq!(opts.link_color, Rgba { r: 10, g: 20, b: 30, a: 40 });
}

#[test]
fn other_fields_degrade_individually() {
    let mut fields = OptionFields::empty();
    fields.theme = Some(String::from("InspiredGitHub"));
    fields.code_block_font_family = Some(String::from("Menlo"));
    fields.height_multiplier = Some(1500);
    fields.font_families = Some(vec![String::from("Inter"), String::from("Arial")]);
    let opts = MarkdownOptions::from_fields(fields).unwrap();
    assert_eq!(opts.theme, "InspiredGitHub");
    assert_eq!(opts.code_block_font_family, "Menlo");
    assert_eq!(opts.height_multiplier, 1500);
    assert_eq!(opts.font_families, Some(vec![String::from("Inter"), String::from("Arial")]));
    // Untouched fields keep their defaults.
    assert_eq!(opts.base_font_size, 180);
    assert_eq!(opts.link_color, Rgba { r: 0, g: 122, b: 255, a: 255 });
}

#[test]
fn scale_size_is_exact() {
    assert_eq!(scale_size(200, 260), 520);
    assert_eq!(scale_size(200, 85), 170);
    assert_eq!(scale_size(180, 100), 180);
    assert_eq!(scale_size(0, 260), 0);
    // Saturates instead of overflowing.
    assert_eq!(scale_size(u64::MAX, 260), u64::MAX);
}
