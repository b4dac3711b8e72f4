//! The fallback resolver and its value model.
//!
//! `resolve` turns an upstream request — an automatic request carrying a
//! generic category and optional target metrics, or an explicit manual
//! font-name list — into a `FontFallback` value for the stylesheet emitter.
//! Font resolution never hard-fails: every outcome, including an unknown
//! category or a malformed request, is returned as a value.

use vstd::prelude::*;

use crate::adjustment::FontAdjustment;
use crate::adjustment::TargetFontMetrics;
use crate::adjustment::compute;
use crate::adjustment::compute_post;
use crate::adjustment::lemma_compute_deterministic;
use crate::catalog::lookup;
use crate::catalog::parse_category;
use crate::catalog::spec_catalog_az_avg_width;
use crate::catalog::spec_catalog_units_per_em;
use crate::catalog::spec_parse_category;

verus! {

/// An automatically generated fallback font. `adjustment` is absent when
/// the metric data was insufficient to compute one, but the fallback font
/// name is still usable.
#[derive(Debug, PartialEq, Eq)]
pub struct AutomaticFontFallback {
    /// Scoped family name emitted into the stylesheet,
    /// e.g. `__Roboto_Fallback_c123b8`.
    pub scoped_font_family: String,
    /// The name of the font locally, used in `src: local("{}")`.
    pub local_font_family: String,
    /// The metric overrides, when they could be computed.
    pub adjustment: Option<FontAdjustment>,
}

/// The outcome of fallback resolution, consumed by the stylesheet emitter.
#[derive(Debug, PartialEq, Eq)]
pub enum FontFallback {
    /// An automatically generated fallback font. May include an optional
    /// [`FontAdjustment`].
    Automatic(AutomaticFontFallback),
    /// There was an issue preparing the font fallback. Since resolving the
    /// font css cannot fail, proper errors cannot be returned; the caller
    /// raises a diagnostic, and this value carries no data.
    Error,
    /// A list of manually provided font names, used as fallbacks as-is.
    Manual(Vec<String>),
}

/// An order-preserving sequence of fallback values; one webfont
/// declaration may need several entries.
#[derive(Debug, PartialEq, Eq)]
pub struct FontFallbacks(pub Vec<FontFallback>);

impl FontFallbacks {
    /// An empty sequence.
    pub fn new() -> (r: FontFallbacks)
        ensures
            r.0@ == Seq::<FontFallback>::empty(),
    {
        FontFallbacks(Vec::new())
    }

    /// Appends one fallback; earlier entries keep their positions, since
    /// CSS `font-family` fallback order is significant.
    pub fn push(&mut self, fallback: FontFallback)
        ensures
            final(self).0@ == old(self).0@.push(fallback),
    {
        self.0.push(fallback);
    }

    /// The number of entries.
    pub fn len(&self) -> (r: usize)
        ensures
            r == self.0@.len(),
    {
        self.0.len()
    }
}

/// A request for fallback resolution, as the upstream classifier and
/// metrics provider hand it over.
#[derive(Debug, PartialEq, Eq)]
pub enum FallbackRequest {
    /// Automatic path: pick the catalog entry for `category` and compute
    /// metric overrides when target metrics are available.
    Automatic {
        /// Generic category string from the classifier,
        /// "sans-serif" or "serif"; anything else is unsupported.
        category: String,
        /// Measured metrics of the webfont being approximated, when the
        /// metrics provider could extract them.
        target_metrics: Option<TargetFontMetrics>,
        /// Scoped family name to emit.
        scoped_font_family: String,
        /// Local font name to emit in `src: local("{}")`.
        local_font_family: String,
    },
    /// Manual path: use the given font names as-is, bypassing all
    /// automatic computation.
    Manual(Vec<String>),
}

/// Full characterization of resolution: which variant comes back for every
/// request, and what it carries.
pub open spec fn resolve_post(request: FallbackRequest, r: FontFallback) -> bool {
    match request {
        FallbackRequest::Manual(names) => {
            if names.len() > 0 {
                r == FontFallback::Manual(names)
            } else {
                r == FontFallback::Error
            }
        },
        FallbackRequest::Automatic { category, target_metrics, scoped_font_family, local_font_family } => {
            match spec_parse_category(category@) {
                None => r == FontFallback::Error,
                Some(c) => {
                    &&& r matches FontFallback::Automatic(a)
                    &&& a.scoped_font_family == scoped_font_family
                    &&& a.local_font_family == local_font_family
                    &&& match target_metrics {
                        None => a.adjustment is None,
                        Some(m) => {
                            if m.wf() {
                                a.adjustment matches Some(adj) && compute_post(
                                    m,
                                    spec_catalog_az_avg_width(c),
                                    spec_catalog_units_per_em(c),
                                    adj,
                                )
                            } else {
                                a.adjustment is None
                            }
                        },
                    }
                },
            }
        },
    }
}

/// Resolves a fallback request to a `FontFallback` value. Stateless, total
/// and deterministic; it never raises a failure:
///
/// - a manual request returns its names unchanged and in order (an empty
///   manual list is malformed and yields `Error`);
/// - an automatic request with an unsupported category yields `Error`;
/// - an automatic request with a supported category yields `Automatic`
///   carrying the family names, with the computed adjustment when
///   well-formed target metrics were supplied and no adjustment when the
///   metrics are absent or malformed.
/// Resolution is stateless and deterministic: its contract pins the result
/// of every request, so any two resolutions of the same request are
/// value-equal and the surrounding build system may memoize on the request
/// without further synchronization.
pub proof fn lemma_resolve_deterministic(
    request: FallbackRequest,
    r1: FontFallback,
    r2: FontFallback,
)
    requires
        resolve_post(request, r1),
        resolve_post(request, r2),
    ensures
        r1 == r2,
{
    match request {
        FallbackRequest::Manual(_) => {
        },
        FallbackRequest::Automatic { category, target_metrics, .. } => {
            match spec_parse_category(category@) {
                None => {
                },
                Some(c) => {
                    if let FontFallback::Automatic(a1) = r1 {
                        if let FontFallback::Automatic(a2) = r2 {
                            if let Some(m) = target_metrics {
                                if m.wf() {
                                    if let Some(adj1) = a1.adjustment {
                                        if let Some(adj2) = a2.adjustment {
                                            lemma_compute_deterministic(
                                                m,
                                                spec_catalog_az_avg_width(c),
                                                spec_catalog_units_per_em(c),
                                                adj1,
                                                adj2,
                                            );
                                        }
                                    }
                                }
                            }
                        }
                    }
                },
            }
        },
    }
}

pub fn resolve(request: FallbackRequest) -> (r: FontFallback)
    ensures
        resolve_post(request, r),
{
    match request {
        FallbackRequest::Manual(names) => {
            if names.len() > 0 {
                FontFallback::Manual(names)
            } else {
                FontFallback::Error
            }
        },
        FallbackRequest::Automatic { category, target_metrics, scoped_font_family, local_font_family } => {
            match parse_category(&category) {
                None => FontFallback::Error,
                Some(c) => {
                    let adjustment: Option<FontAdjustment> = match &target_metrics {
                        None => None,
                        Some(m) => {
                            if m.is_well_formed() {
                                let font = lookup(c);
                                Some(compute(m, &font))
                            } else {
                                None
                            }
                        },
                    };
                    FontFallback::Automatic(
                        AutomaticFontFallback { scoped_font_family, local_font_family, adjustment },
                    )
                },
            }
        },
    }
}

} // verus!
