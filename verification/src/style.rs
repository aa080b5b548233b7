//! Typography data model: font weight/width/slant, text decoration,
//! colors, and the inheritable `TextStyle` record that the interpreter
//! stacks per open Markdown tag.
//!
//! Font sizes are measured in tenths of a point (an integer), so that
//! derived sizes and comparisons are exact.
use vstd::prelude::*;

verus! {

/// Default font size (tenths of a point): 18 points.
pub const DEFAULT_FONT_SIZE_TENTHS: u64 = 180;

/// Named font weight levels. The numeric level of each is given by
/// [`FontWeight::code`].
#[derive(Copy, Clone, Debug, PartialEq, Eq, Hash, Structural)]
pub enum FontWeight {
    Invisible,
    Thin,
    ExtraLight,
    Light,
    Normal,
    Medium,
    SemiBold,
    Bold,
    ExtraBold,
    Black,
    ExtraBlack,
}

/// Named font width levels. The numeric level of each is given by
/// [`FontWidth::code`].
#[derive(Copy, Clone, Debug, PartialEq, Eq, Hash, Structural)]
pub enum FontWidth {
    UltraCondensed,
    ExtraCondensed,
    Condensed,
    SemiCondensed,
    Normal,
    SemiExpanded,
    Expanded,
    ExtraExpanded,
    UltraExpanded,
}

/// Font slant.
#[derive(Copy, Clone, Debug, PartialEq, Eq, Hash, Structural)]
pub enum FontSlant {
    Upright,
    Italic,
    Oblique,
}

/// Text decoration. The field holds a single chosen value; the numeric
/// codes ([`TextDecoration::code`]) are disjoint bit positions.
#[derive(Copy, Clone, Debug, PartialEq, Eq, Hash, Structural)]
pub enum TextDecoration {
    NoDecoration,
    Underline,
    Overline,
    LineThrough,
}

impl FontWeight {
    /// The numeric level of this weight (0 ..= 1000 in steps of 100).
    pub open spec fn spec_code(self) -> u16 {
        match self {
            FontWeight::Invisible => 0,
            FontWeight::Thin => 100,
            FontWeight::ExtraLight => 200,
            FontWeight::Light => 300,
            FontWeight::Normal => 400,
            FontWeight::Medium => 500,
            FontWeight::SemiBold => 600,
            FontWeight::Bold => 700,
            FontWeight::ExtraBold => 800,
            FontWeight::Black => 900,
            FontWeight::ExtraBlack => 1000,
        }
    }

    #[verifier::when_used_as_spec(spec_code)]
    pub fn code(self) -> (r: u16)
        ensures
            r == self.spec_code(),
    {
        match self {
            FontWeight::Invisible => 0,
            FontWeight::Thin => 100,
            FontWeight::ExtraLight => 200,
            FontWeight::Light => 300,
            FontWeight::Normal => 400,
            FontWeight::Medium => 500,
            FontWeight::SemiBold => 600,
            FontWeight::Bold => 700,
            FontWeight::ExtraBold => 800,
            FontWeight::Black => 900,
            FontWeight::ExtraBlack => 1000,
        }
    }
}

impl FontWidth {
    /// The numeric level of this width (1 ..= 9).
    pub open spec fn spec_code(self) -> u16 {
        match self {
            FontWidth::UltraCondensed => 1,
            FontWidth::ExtraCondensed => 2,
            FontWidth::Condensed => 3,
            FontWidth::SemiCondensed => 4,
            FontWidth::Normal => 5,
            FontWidth::SemiExpanded => 6,
            FontWidth::Expanded => 7,
            FontWidth::ExtraExpanded => 8,
            FontWidth::UltraExpanded => 9,
        }
    }

    #[verifier::when_used_as_spec(spec_code)]
    pub fn code(self) -> (r: u16)
        ensures
            r == self.spec_code(),
    {
        match self {
            FontWidth::UltraCondensed => 1,
            FontWidth::ExtraCondensed => 2,
            FontWidth::Condensed => 3,
            FontWidth::SemiCondensed => 4,
            FontWidth::Normal => 5,
            FontWidth::SemiExpanded => 6,
            FontWidth::Expanded => 7,
            FontWidth::ExtraExpanded => 8,
            FontWidth::UltraExpanded => 9,
        }
    }
}

impl FontSlant {
    /// The numeric code of this slant (0 ..= 2, declaration order).
    pub open spec fn spec_code(self) -> u16 {
        match self {
            FontSlant::Upright => 0,
            FontSlant::Italic => 1,
            FontSlant::Oblique => 2,
        }
    }

    #[verifier::when_used_as_spec(spec_code)]
    pub fn code(self) -> (r: u16)
        ensures
            r == self.spec_code(),
    {
        match self {
            FontSlant::Upright => 0,
            FontSlant::Italic => 1,
            FontSlant::Oblique => 2,
        }
    }
}

impl TextDecoration {
    /// The numeric code of this decoration; the codes are disjoint bit
    /// positions (0, 1, 2, 4).
    pub open spec fn spec_code(self) -> u8 {
        match self {
            TextDecoration::NoDecoration => 0,
            TextDecoration::Underline => 1,
            TextDecoration::Overline => 2,
            TextDecoration::LineThrough => 4,
        }
    }

    #[verifier::when_used_as_spec(spec_code)]
    pub fn code(self) -> (r: u8)
        ensures
            r == self.spec_code(),
    {
        match self {
            TextDecoration::NoDecoration => 0,
            TextDecoration::Underline => 1,
            TextDecoration::Overline => 2,
            TextDecoration::LineThrough => 4,
        }
    }
}

impl Default for FontWeight {
    fn default() -> (r: Self)
        ensures
            r == FontWeight::Normal,
    {
        FontWeight::Normal
    }
}

impl Default for FontWidth {
    fn default() -> (r: Self)
        ensures
            r == FontWidth::Normal,
    {
        FontWidth::Normal
    }
}

impl Default for FontSlant {
    fn default() -> (r: Self)
        ensures
            r == FontSlant::Upright,
    {
        FontSlant::Upright
    }
}

/// A font style record: weight, width and slant together.
#[derive(Copy, Clone, Debug, PartialEq, Eq, Hash, Structural)]
pub struct FontStyle {
    pub weight: FontWeight,
    pub width: FontWidth,
    pub slant: FontSlant,
}

impl FontStyle {
    /// All-default font style: Normal weight, Normal width, Upright slant.
    pub open spec fn spec_default() -> FontStyle {
        FontStyle { weight: FontWeight::Normal, width: FontWidth::Normal, slant: FontSlant::Upright }
    }
}

impl Default for FontStyle {
    fn default() -> (r: Self)
        ensures
            r == FontStyle::spec_default(),
    {
        FontStyle { weight: FontWeight::Normal, width: FontWidth::Normal, slant: FontSlant::Upright }
    }
}

/// A 4-byte RGBA color.
#[derive(Copy, Clone, Debug, PartialEq, Eq, Hash, Structural)]
pub struct Rgba {
    pub r: u8,
    pub g: u8,
    pub b: u8,
    pub a: u8,
}

impl View for Rgba {
    type V = Rgba;

    open spec fn view(&self) -> Rgba {
        *self
    }
}

impl DeepView for Rgba {
    type V = Rgba;

    open spec fn deep_view(&self) -> Rgba {
        *self
    }
}

impl View for FontStyle {
    type V = FontStyle;

    open spec fn view(&self) -> FontStyle {
        *self
    }
}

impl DeepView for FontStyle {
    type V = FontStyle;

    open spec fn deep_view(&self) -> FontStyle {
        *self
    }
}

/// Mathematical model of a [`TextStyle`]: the same fields with string
/// lists abstracted to sequences of character sequences.
#[verifier::ext_equal]
pub ghost struct TextStyleV {
    pub font_size: Option<u64>,
    pub font_style: Option<FontStyle>,
    pub decoration: Option<TextDecoration>,
    pub font_families: Option<Seq<Seq<char>>>,
    pub color: Option<Rgba>,
}

/// One level of the interpreter's style stack. Every field is optional;
/// absence means "inherit/unset" and the consumer applies its own
/// default. Equality is structural (the cache keys whole styles).
///
/// `font_size` is in tenths of a point.
#[derive(Debug, PartialEq, Eq, Hash)]
pub struct TextStyle {
    pub font_size: Option<u64>,
    pub font_style: Option<FontStyle>,
    pub decoration: Option<TextDecoration>,
    pub font_families: Option<Vec<String>>,
    pub color: Option<Rgba>,
}

/// Copy a list of font-family names.
pub fn clone_strings(v: &Vec<String>) -> (r: Vec<String>)
    ensures
        r.deep_view() == v.deep_view(),
{
    let mut r: Vec<String> = Vec::new();
    let n = v.len();
    for i in 0..n
        invariant
            n == v@.len(),
            r.deep_view() == v.deep_view().take(i as int),
    {
        let c = v[i].clone();
        let ghost prev = r.deep_view();
        r.push(c);
        proof {
            assert(r.deep_view() =~= prev.push(v.deep_view()[i as int]));
            assert(v.deep_view().take(i as int + 1) =~= prev.push(v.deep_view()[i as int]));
        }
    }
    proof {
        assert(v.deep_view().take(n as int) =~= v.deep_view());
    }
    r
}

/// Copy an optional list of font-family names.
pub fn clone_opt_strings(v: &Option<Vec<String>>) -> (r: Option<Vec<String>>)
    ensures
        r is Some <==> v is Some,
        r matches Some(rv) ==> v matches Some(vv) && rv.deep_view() == vv.deep_view(),
{
    match v {
        Some(fams) => Some(clone_strings(fams)),
        None => None,
    }
}

impl Clone for TextStyle {
    /// A copy with the same fields: styles are inherited by value down
    /// the tag stack.
    fn clone(&self) -> (r: Self)
        ensures
            r@ == self@,
    {
        let r = TextStyle {
            font_size: self.font_size,
            font_style: self.font_style,
            decoration: self.decoration,
            font_families: clone_opt_strings(&self.font_families),
            color: self.color,
        };
        proof {
            assert(r@ =~~= self@);
        }
        r
    }
}

impl View for TextStyle {
    type V = TextStyleV;

    open spec fn view(&self) -> TextStyleV {
        TextStyleV {
            font_size: self.font_size,
            font_style: self.font_style,
            decoration: self.decoration,
            font_families: match self.font_families {
                Some(fams) => Some(fams.deep_view()),
                None => None,
            },
            color: self.color,
        }
    }
}

impl DeepView for TextStyle {
    type V = TextStyleV;

    open spec fn deep_view(&self) -> TextStyleV {
        self.view()
    }
}

impl TextStyle {
    /// The style carrying only a font size, everything else unset.
    pub open spec fn spec_with_size(size: u64) -> TextStyleV {
        TextStyleV {
            font_size: Some(size),
            font_style: None,
            decoration: None,
            font_families: None,
            color: None,
        }
    }

    /// Build the style that carries only the given font size (tenths of
    /// a point).
    pub fn default_with_size(size: u64) -> (r: Self)
        ensures
            r@ == TextStyle::spec_with_size(size),
    {
        TextStyle {
            font_size: Some(size),
            font_style: None,
            decoration: None,
            font_families: None,
            color: None,
        }
    }
}

impl Default for TextStyle {
    /// The structural default style: 18 points, everything else unset.
    fn default() -> (r: Self)
        ensures
            r@ == TextStyle::spec_with_size(DEFAULT_FONT_SIZE_TENTHS),
    {
        TextStyle::default_with_size(DEFAULT_FONT_SIZE_TENTHS)
    }
}

} // verus!
