//! The static catalog of default system fallback fonts.
//!
//! One immutable record per supported generic font category. The two
//! average-width constants are fixed reference measurements of the lowercase
//! Latin alphabet of each font, expressed exactly as rationals in design
//! units at the font's own units-per-em scale.

use vstd::prelude::*;

use crate::ratio::METRIC_BOUND;
use crate::ratio::Ratio;

verus! {

/// Numerator of Arial's average lowercase advance width, in design units.
pub const SANS_SERIF_AZ_AVG_WIDTH_NUM: i128 = 40184;

/// Numerator of Times New Roman's average lowercase advance width,
/// in design units.
pub const SERIF_AZ_AVG_WIDTH_NUM: i128 = 36739;

/// Shared denominator of the two average-width measurements.
pub const AZ_AVG_WIDTH_DEN: i128 = 43;

/// Units-per-em grid of both catalog fonts.
pub const CATALOG_UNITS_PER_EM: u32 = 2048;

/// The closed set of generic font categories the catalog supports. Any
/// other category is an upstream configuration error and is rejected at the
/// resolver boundary.
#[derive(Clone, Copy, Debug, PartialEq, Eq, Structural)]
pub enum GenericFontCategory {
    /// The CSS "sans-serif" generic family.
    SansSerif,
    /// The CSS "serif" generic family.
    Serif,
}

/// An immutable catalog record describing one default fallback font.
#[derive(Debug, PartialEq, Eq)]
pub struct DefaultFallbackFont {
    /// Display/font-family name, e.g. "Arial".
    pub name: String,
    /// Average advance width of the lowercase Latin alphabet glyphs, in
    /// design units at this font's own units-per-em scale.
    pub az_avg_width: Ratio,
    /// The font's design grid resolution.
    pub units_per_em: u32,
}

impl DefaultFallbackFont {
    /// Record invariant: a positive, bounded design grid and a
    /// non-negative, bounded average width.
    pub open spec fn wf(self) -> bool {
        &&& 0 < self.units_per_em <= METRIC_BOUND
        &&& self.az_avg_width.bounded()
        &&& self.az_avg_width.num >= 0
    }
}

/// The average lowercase advance width the catalog records for a category.
pub open spec fn spec_catalog_az_avg_width(category: GenericFontCategory) -> Ratio {
    match category {
        GenericFontCategory::SansSerif => Ratio {
            num: SANS_SERIF_AZ_AVG_WIDTH_NUM as i128,
            den: AZ_AVG_WIDTH_DEN as i128,
        },
        GenericFontCategory::Serif => Ratio {
            num: SERIF_AZ_AVG_WIDTH_NUM as i128,
            den: AZ_AVG_WIDTH_DEN as i128,
        },
    }
}

/// The units-per-em grid the catalog records for a category.
pub open spec fn spec_catalog_units_per_em(category: GenericFontCategory) -> u32 {
    CATALOG_UNITS_PER_EM
}

/// The default fallback record for the "sans-serif" category: Arial.
pub fn default_sans_serif_font() -> (r: DefaultFallbackFont)
    ensures
        r.name@ == "Arial"@,
        r.az_avg_width == spec_catalog_az_avg_width(GenericFontCategory::SansSerif),
        r.units_per_em == CATALOG_UNITS_PER_EM,
        r.wf(),
{
    DefaultFallbackFont {
        name: String::from_str("Arial"),
        az_avg_width: Ratio { num: SANS_SERIF_AZ_AVG_WIDTH_NUM, den: AZ_AVG_WIDTH_DEN },
        units_per_em: CATALOG_UNITS_PER_EM,
    }
}

/// The default fallback record for the "serif" category: Times New Roman.
pub fn default_serif_font() -> (r: DefaultFallbackFont)
    ensures
        r.name@ == "Times New Roman"@,
        r.az_avg_width == spec_catalog_az_avg_width(GenericFontCategory::Serif),
        r.units_per_em == CATALOG_UNITS_PER_EM,
        r.wf(),
{
    DefaultFallbackFont {
        name: String::from_str("Times New Roman"),
        az_avg_width: Ratio { num: SERIF_AZ_AVG_WIDTH_NUM, den: AZ_AVG_WIDTH_DEN },
        units_per_em: CATALOG_UNITS_PER_EM,
    }
}

/// Returns the default fallback record for a supported category. Total over
/// the closed category enumeration: there is no error path here, unknown
/// categories are guarded at the resolver boundary.
pub fn lookup(category: GenericFontCategory) -> (r: DefaultFallbackFont)
    ensures
        r.az_avg_width == spec_catalog_az_avg_width(category),
        r.units_per_em == spec_catalog_units_per_em(category),
        r.wf(),
        category == GenericFontCategory::SansSerif ==> r.name@ == "Arial"@,
        category == GenericFontCategory::Serif ==> r.name@ == "Times New Roman"@,
{
    match category {
        GenericFontCategory::SansSerif => default_sans_serif_font(),
        GenericFontCategory::Serif => default_serif_font(),
    }
}

/// The category a classifier-supplied string denotes, if any.
pub open spec fn spec_parse_category(s: Seq<char>) -> Option<GenericFontCategory> {
    if s == "sans-serif"@ {
        Some(GenericFontCategory::SansSerif)
    } else if s == "serif"@ {
        Some(GenericFontCategory::Serif)
    } else {
        None
    }
}

/// Parses a generic-category string from the upstream classifier.
/// Exactly "sans-serif" and "serif" are recognized.
pub fn parse_category(s: &String) -> (r: Option<GenericFontCategory>)
    ensures
        r == spec_parse_category(s@),
{
    let sans_serif = String::from_str("sans-serif");
    let serif = String::from_str("serif");
    if *s == sans_serif {
        Some(GenericFontCategory::SansSerif)
    } else if *s == serif {
        Some(GenericFontCategory::Serif)
    } else {
        None
    }
}

} // verus!
