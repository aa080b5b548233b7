//! Conversion options: heading sizes, link color, font families, code
//! block font and highlighting theme.
//!
//! Each heading size defaults to the base font size scaled by a fixed
//! factor unless explicitly overridden. A malformed `link_color` (present
//! but not exactly 4 components) rejects the whole options record, while
//! every other absent field degrades to its own default.
use vstd::prelude::*;

use crate::style::Rgba;

verus! {

/// Heading scale factors, in hundredths (H1 = 2.60 x base, ...).
pub const H1_FACTOR_HUNDREDTHS: u64 = 260;

pub const H2_FACTOR_HUNDREDTHS: u64 = 220;

pub const H3_FACTOR_HUNDREDTHS: u64 = 180;

pub const H4_FACTOR_HUNDREDTHS: u64 = 130;

pub const H5_FACTOR_HUNDREDTHS: u64 = 100;

pub const H6_FACTOR_HUNDREDTHS: u64 = 85;

/// Default base font size (tenths of a point): 18 points.
pub const DEFAULT_BASE_FONT_SIZE_TENTHS: u64 = 180;

/// Height multiplier is carried in thousandths; 1000 means 1.0 (unset).
pub const DEFAULT_HEIGHT_MULTIPLIER_PERMILLE: u64 = 1000;

/// `base` scaled by `factor_hundredths / 100`, saturating at `u64::MAX`.
pub open spec fn spec_scale(base: u64, factor_hundredths: u64) -> u64 {
    let q = (base as int) * (factor_hundredths as int) / 100;
    if q > u64::MAX as int {
        u64::MAX
    } else {
        q as u64
    }
}

/// Scale a font size (tenths of a point) by a factor in hundredths,
/// saturating at `u64::MAX`.
pub fn scale_size(base: u64, factor_hundredths: u64) -> (r: u64)
    ensures
        r == spec_scale(base, factor_hundredths),
{
    proof {
        assert((base as int) * (factor_hundredths as int) <= (u64::MAX as int) * (u64::MAX as int))
            by (nonlinear_arith)
            requires
                base <= u64::MAX,
                factor_hundredths <= u64::MAX,
        ;
    }
    let wide: u128 = (base as u128) * (factor_hundredths as u128) / 100;
    if wide > u64::MAX as u128 {
        u64::MAX
    } else {
        wide as u64
    }
}

/// Mathematical model of [`MarkdownOptions`].
#[verifier::ext_equal]
pub ghost struct MarkdownOptionsV {
    pub h1_font_size: u64,
    pub h2_font_size: u64,
    pub h3_font_size: u64,
    pub h4_font_size: u64,
    pub h5_font_size: u64,
    pub h6_font_size: u64,
    pub base_font_size: u64,
    pub link_color: Rgba,
    pub height_multiplier: u64,
    pub font_families: Option<Seq<Seq<char>>>,
    pub code_block_font_family: Seq<char>,
    pub theme: Seq<char>,
}

/// Conversion options. Font sizes are in tenths of a point; the height
/// multiplier is in thousandths (1000 = 1.0).
#[derive(Clone, Debug, PartialEq, Eq)]
pub struct MarkdownOptions {
    pub h1_font_size: u64,
    pub h2_font_size: u64,
    pub h3_font_size: u64,
    pub h4_font_size: u64,
    pub h5_font_size: u64,
    pub h6_font_size: u64,
    pub base_font_size: u64,
    pub link_color: Rgba,
    pub height_multiplier: u64,
    pub font_families: Option<Vec<String>>,
    pub code_block_font_family: String,
    pub theme: String,
}

impl View for MarkdownOptions {
    type V = MarkdownOptionsV;

    open spec fn view(&self) -> MarkdownOptionsV {
        MarkdownOptionsV {
            h1_font_size: self.h1_font_size,
            h2_font_size: self.h2_font_size,
            h3_font_size: self.h3_font_size,
            h4_font_size: self.h4_font_size,
            h5_font_size: self.h5_font_size,
            h6_font_size: self.h6_font_size,
            base_font_size: self.base_font_size,
            link_color: self.link_color,
            height_multiplier: self.height_multiplier,
            font_families: match self.font_families {
                Some(fams) => Some(fams.deep_view()),
                None => None,
            },
            code_block_font_family: self.code_block_font_family@,
            theme: self.theme@,
        }
    }
}

/// The default link color: the platform's link blue.
pub open spec fn spec_default_link_color() -> Rgba {
    Rgba { r: 0, g: 122, b: 255, a: 255 }
}

/// The full-default options record.
pub open spec fn spec_default_options() -> MarkdownOptionsV {
    MarkdownOptionsV {
        h1_font_size: spec_scale(DEFAULT_BASE_FONT_SIZE_TENTHS, H1_FACTOR_HUNDREDTHS),
        h2_font_size: spec_scale(DEFAULT_BASE_FONT_SIZE_TENTHS, H2_FACTOR_HUNDREDTHS),
        h3_font_size: spec_scale(DEFAULT_BASE_FONT_SIZE_TENTHS, H3_FACTOR_HUNDREDTHS),
        h4_font_size: spec_scale(DEFAULT_BASE_FONT_SIZE_TENTHS, H4_FACTOR_HUNDREDTHS),
        h5_font_size: spec_scale(DEFAULT_BASE_FONT_SIZE_TENTHS, H5_FACTOR_HUNDREDTHS),
        h6_font_size: spec_scale(DEFAULT_BASE_FONT_SIZE_TENTHS, H6_FACTOR_HUNDREDTHS),
        base_font_size: DEFAULT_BASE_FONT_SIZE_TENTHS,
        link_color: spec_default_link_color(),
        height_multiplier: DEFAULT_HEIGHT_MULTIPLIER_PERMILLE,
        font_families: None,
        code_block_font_family: "monospace"@,
        theme: "base16-ocean.dark"@,
    }
}

impl Default for MarkdownOptions {
    fn default() -> (r: Self)
        ensures
            r@ == spec_default_options(),
    {
        MarkdownOptions {
            h1_font_size: scale_size(DEFAULT_BASE_FONT_SIZE_TENTHS, H1_FACTOR_HUNDREDTHS),
            h2_font_size: scale_size(DEFAULT_BASE_FONT_SIZE_TENTHS, H2_FACTOR_HUNDREDTHS),
            h3_font_size: scale_size(DEFAULT_BASE_FONT_SIZE_TENTHS, H3_FACTOR_HUNDREDTHS),
            h4_font_size: scale_size(DEFAULT_BASE_FONT_SIZE_TENTHS, H4_FACTOR_HUNDREDTHS),
            h5_font_size: scale_size(DEFAULT_BASE_FONT_SIZE_TENTHS, H5_FACTOR_HUNDREDTHS),
            h6_font_size: scale_size(DEFAULT_BASE_FONT_SIZE_TENTHS, H6_FACTOR_HUNDREDTHS),
            base_font_size: DEFAULT_BASE_FONT_SIZE_TENTHS,
            link_color: Rgba { r: 0, g: 122, b: 255, a: 255 },
            height_multiplier: DEFAULT_HEIGHT_MULTIPLIER_PERMILLE,
            font_families: None,
            code_block_font_family: String::from_str("monospace"),
            theme: String::from_str("base16-ocean.dark"),
        }
    }
}

/// Mathematical model of [`OptionFields`].
#[verifier::ext_equal]
pub ghost struct OptionFieldsV {
    pub base_font_size: Option<u64>,
    pub h1_font_size: Option<u64>,
    pub h2_font_size: Option<u64>,
    pub h3_font_size: Option<u64>,
    pub h4_font_size: Option<u64>,
    pub h5_font_size: Option<u64>,
    pub h6_font_size: Option<u64>,
    pub link_color: Option<Seq<u8>>,
    pub height_multiplier: Option<u64>,
    pub font_families: Option<Seq<Seq<char>>>,
    pub code_block_font_family: Option<Seq<char>>,
    pub theme: Option<Seq<char>>,
}

/// The raw option fields as a host hands them over: every field optional,
/// with `None` for a field that is absent or of the wrong type.
///
/// `link_color` is kept as the raw component list so that its length can
/// be validated here.
pub struct OptionFields {
    pub base_font_size: Option<u64>,
    pub h1_font_size: Option<u64>,
    pub h2_font_size: Option<u64>,
    pub h3_font_size: Option<u64>,
    pub h4_font_size: Option<u64>,
    pub h5_font_size: Option<u64>,
    pub h6_font_size: Option<u64>,
    pub link_color: Option<Vec<u8>>,
    pub height_multiplier: Option<u64>,
    pub font_families: Option<Vec<String>>,
    pub code_block_font_family: Option<String>,
    pub theme: Option<String>,
}

impl View for OptionFields {
    type V = OptionFieldsV;

    open spec fn view(&self) -> OptionFieldsV {
        OptionFieldsV {
            base_font_size: self.base_font_size,
            h1_font_size: self.h1_font_size,
            h2_font_size: self.h2_font_size,
            h3_font_size: self.h3_font_size,
            h4_font_size: self.h4_font_size,
            h5_font_size: self.h5_font_size,
            h6_font_size: self.h6_font_size,
            link_color: match self.link_color {
                Some(c) => Some(c@),
                None => None,
            },
            height_multiplier: self.height_multiplier,
            font_families: match self.font_families {
                Some(fams) => Some(fams.deep_view()),
                None => None,
            },
            code_block_font_family: match self.code_block_font_family {
                Some(f) => Some(f@),
                None => None,
            },
            theme: match self.theme {
                Some(t) => Some(t@),
                None => None,
            },
        }
    }
}

impl OptionFields {
    /// The record with every field absent; resolving it gives the full
    /// defaults.
    pub fn empty() -> (r: Self)
        ensures
            r@.base_font_size is None,
            r@.h1_font_size is None,
            r@.h2_font_size is None,
            r@.h3_font_size is None,
            r@.h4_font_size is None,
            r@.h5_font_size is None,
            r@.h6_font_size is None,
            r@.link_color is None,
            r@.height_multiplier is None,
            r@.font_families is None,
            r@.code_block_font_family is None,
            r@.theme is None,
    {
        OptionFields {
            base_font_size: None,
            h1_font_size: None,
            h2_font_size: None,
            h3_font_size: None,
            h4_font_size: None,
            h5_font_size: None,
            h6_font_size: None,
            link_color: None,
            height_multiplier: None,
            font_families: None,
            code_block_font_family: None,
            theme: None,
        }
    }
}

/// Whether the given raw fields are rejected as a whole: exactly when a
/// `link_color` is present but does not have exactly 4 components.
pub open spec fn spec_fields_rejected(f: OptionFieldsV) -> bool {
    match f.link_color {
        Some(c) => c.len() != 4,
        None => false,
    }
}

/// The options record that the given raw fields resolve to, assuming
/// they are not rejected: the base font size defaults to 18 points, each
/// heading size to the base scaled by its factor, and every other absent
/// field to its own default.
pub open spec fn spec_resolve_fields(f: OptionFieldsV) -> MarkdownOptionsV {
    let base = match f.base_font_size {
        Some(b) => b,
        None => DEFAULT_BASE_FONT_SIZE_TENTHS,
    };
    MarkdownOptionsV {
        h1_font_size: match f.h1_font_size {
            Some(v) => v,
            None => spec_scale(base, H1_FACTOR_HUNDREDTHS),
        },
        h2_font_size: match f.h2_font_size {
            Some(v) => v,
            None => spec_scale(base, H2_FACTOR_HUNDREDTHS),
        },
        h3_font_size: match f.h3_font_size {
            Some(v) => v,
            None => spec_scale(base, H3_FACTOR_HUNDREDTHS),
        },
        h4_font_size: match f.h4_font_size {
            Some(v) => v,
            None => spec_scale(base, H4_FACTOR_HUNDREDTHS),
        },
        h5_font_size: match f.h5_font_size {
            Some(v) => v,
            None => spec_scale(base, H5_FACTOR_HUNDREDTHS),
        },
        h6_font_size: match f.h6_font_size {
            Some(v) => v,
            None => spec_scale(base, H6_FACTOR_HUNDREDTHS),
        },
        base_font_size: base,
        link_color: match f.link_color {
            Some(c) => Rgba { r: c[0], g: c[1], b: c[2], a: c[3] },
            None => spec_default_link_color(),
        },
        height_multiplier: match f.height_multiplier {
            Some(m) => m,
            None => DEFAULT_HEIGHT_MULTIPLIER_PERMILLE,
        },
        font_families: f.font_families,
        code_block_font_family: match f.code_block_font_family {
            Some(fam) => fam,
            None => "monospace"@,
        },
        theme: match f.theme {
            Some(t) => t,
            None => "base16-ocean.dark"@,
        },
    }
}

impl MarkdownOptions {
    /// Resolve raw option fields into an options record.
    ///
    /// Returns `None` exactly when a `link_color` is present but does not
    /// have exactly 4 components; every other absent field degrades to
    /// its own default individually.
    pub fn from_fields(fields: OptionFields) -> (r: Option<MarkdownOptions>)
        ensures
            r is None <==> spec_fields_rejected(fields@),
            r matches Some(opts) ==> opts@ == spec_resolve_fields(fields@),
    {
        if let Some(c) = &fields.link_color {
            if c.len() != 4 {
                return None;
            }
        }
        let base = match fields.base_font_size {
            Some(b) => b,
            None => DEFAULT_BASE_FONT_SIZE_TENTHS,
        };
        let link_color = match &fields.link_color {
            Some(c) => Rgba { r: c[0], g: c[1], b: c[2], a: c[3] },
            None => Rgba { r: 0, g: 122, b: 255, a: 255 },
        };
        Some(
            MarkdownOptions {
                h1_font_size: match fields.h1_font_size {
                    Some(v) => v,
                    None => scale_size(base, H1_FACTOR_HUNDREDTHS),
                },
                h2_font_size: match fields.h2_font_size {
                    Some(v) => v,
                    None => scale_size(base, H2_FACTOR_HUNDREDTHS),
                },
                h3_font_size: match fields.h3_font_size {
                    Some(v) => v,
                    None => scale_size(base, H3_FACTOR_HUNDREDTHS),
                },
                h4_font_size: match fields.h4_font_size {
                    Some(v) => v,
                    None => scale_size(base, H4_FACTOR_HUNDREDTHS),
                },
                h5_font_size: match fields.h5_font_size {
                    Some(v) => v,
                    None => scale_size(base, H5_FACTOR_HUNDREDTHS),
                },
                h6_font_size: match fields.h6_font_size {
                    Some(v) => v,
                    None => scale_size(base, H6_FACTOR_HUNDREDTHS),
                },
                base_font_size: base,
                link_color,
                height_multiplier: match fields.height_multiplier {
                    Some(m) => m,
                    None => DEFAULT_HEIGHT_MULTIPLIER_PERMILLE,
                },
                font_families: fields.font_families,
                code_block_font_family: match fields.code_block_font_family {
                    Some(f) => f,
                    None => String::from_str("monospace"),
                },
                theme: match fields.theme {
                    Some(t) => t,
                    None => String::from_str("base16-ocean.dark"),
                },
            },
        )
    }

    /// Resolve raw option fields, falling back to the full defaults when
    /// they are rejected: a malformed `link_color` reverts every field,
    /// including unrelated ones.
    pub fn from_fields_or_default(fields: OptionFields) -> (r: MarkdownOptions)
        ensures
            spec_fields_rejected(fields@) ==> r@ == spec_default_options(),
            !spec_fields_rejected(fields@) ==> r@ == spec_resolve_fields(fields@),
    {
        match MarkdownOptions::from_fields(fields) {
            Some(opts) => opts,
            None => MarkdownOptions::default(),
        }
    }
}

} // verus!
