use font_fallback::adjustment::FontAdjustment;
use font_fallback::adjustment::TargetFontMetrics;
use font_fallback::adjustment::compute;
use font_fallback::adjustment::from_parts;
use font_fallback::adjustment::to_parts;
use font_fallback::catalog::DefaultFallbackFont;
use font_fallback::catalog::GenericFontCategory;
use font_fallback::catalog::default_sans_serif_font;
use font_fallback::catalog::default_serif_font;
use font_fallback::catalog::lookup;
use font_fallback::ratio::METRIC_BOUND;
use font_fallback::ratio::Ratio;

fn ratio_to_f64(r: &Ratio) -> f64 {
    r.num as f64 / r.den as f64
}

fn sample_target() -> TargetFontMetrics {
    TargetFontMetrics {
        ascent: 1900,
        descent: -500,
        line_gap: 0,
        units_per_em: 2048,
        az_avg_width: Ratio { num: 1000, den: 1 },
    }
}

#[test]
fn catalog_records_match_reference_measurements() {
    for category in [GenericFontCategory::SansSerif, GenericFontCategory::Serif] {
        let record = lookup(category);
        assert_eq!(record.units_per_em, 2048);
        assert_eq!(record.az_avg_width.den, 43);
    }
    let sans = lookup(GenericFontCategory::SansSerif);
    assert_eq!(sans.name, "Arial");
    assert_eq!(sans.az_avg_width.num, 40184);
    assert_eq!(ratio_to_f64(&sans.az_avg_width), 934.5116279069767);
    let serif = lookup(GenericFontCategory::Serif);
    assert_eq!(serif.name, "Times New Roman");
    assert_eq!(serif.az_avg_width.num, 36739);
    assert_eq!(ratio_to_f64(&serif.az_avg_width), 854.3953488372093);
}

#[test]
fn lookup_agrees_with_default_records() {
    assert_eq!(lookup(GenericFontCategory::SansSerif), default_sans_serif_font());
    assert_eq!(lookup(GenericFontCategory::Serif), default_serif_font());
}

#[test]
fn compute_is_deterministic() {
    let target = sample_target();
    let fallback = default_sans_serif_font();
    let first = compute(&target, &fallback);
    let second = compute(&target, &fallback);
    assert_eq!(first, second);
}

#[test]
fn matched_metrics_need_no_size_adjust() {
    let fallback = default_sans_serif_font();
    let target = TargetFontMetrics {
        ascent: 1854,
        descent: -434,
        line_gap: 67,
        units_per_em: 2048,
        az_avg_width: Ratio { num: 40184, den: 43 },
    };
    let adjustment = compute(&target, &fallback);
    assert_eq!(adjustment.size_adjust.num, adjustment.size_adjust.den);
}

#[test]
fn matched_metrics_in_another_representation_need_no_size_adjust() {
    // The same width written as 80368/86 instead of 40184/43.
    let fallback = default_sans_serif_font();
    let target = TargetFontMetrics {
        ascent: 1854,
        descent: -434,
        line_gap: 67,
        units_per_em: 2048,
        az_avg_width: Ratio { num: 80368, den: 86 },
    };
    let adjustment = compute(&target, &fallback);
    assert_eq!(adjustment.size_adjust.num, adjustment.size_adjust.den);
}

#[test]
fn size_adjust_grows_with_target_width() {
    let fallback = default_sans_serif_font();
    let mut narrow = sample_target();
    narrow.az_avg_width = Ratio { num: 900, den: 1 };
    let mut wide = sample_target();
    wide.az_avg_width = Ratio { num: 1000, den: 1 };
    let small = compute(&narrow, &fallback).size_adjust;
    let large = compute(&wide, &fallback).size_adjust;
    // cross-multiplied comparison of the exact rational values
    assert!(small.num * large.den < large.num * small.den);
}

#[test]
fn overrides_balance_against_size_adjust() {
    let fallback = default_serif_font();
    let target = sample_target();
    let adjustment = compute(&target, &fallback);
    let sa = adjustment.size_adjust;
    let upem = fallback.units_per_em as i128;
    // override * size_adjust * units_per_em == 100 * metric, as rationals
    for (metric, over) in [
        (target.ascent, adjustment.ascent),
        (target.descent, adjustment.descent),
        (target.line_gap, adjustment.line_gap),
    ] {
        assert_eq!(over.num * sa.num * upem, 100 * metric as i128 * over.den * sa.den);
    }
}

#[test]
fn compute_matches_documented_formulas() {
    let fallback = default_sans_serif_font();
    let target = sample_target();
    let adjustment = compute(&target, &fallback);

    // exact rationals of the formulas
    assert_eq!(adjustment.size_adjust.num, 1000 * 43 * 2048);
    assert_eq!(adjustment.size_adjust.den, 1 * 40184 * 2048);
    assert_eq!(adjustment.line_gap.num, 0);

    // the same values in floating point, per the formulas
    let size_adjust = ratio_to_f64(&adjustment.size_adjust);
    let expected_size_adjust = (1000.0 / 2048.0) / (934.5116279069767 / 2048.0);
    assert!((size_adjust - expected_size_adjust).abs() < 1e-12);

    let adjusted_em = 2048.0 * expected_size_adjust;
    let ascent = ratio_to_f64(&adjustment.ascent);
    assert!((ascent - 1900.0 / adjusted_em * 100.0).abs() < 1e-9);
    let descent = ratio_to_f64(&adjustment.descent);
    assert!((descent - (-500.0) / adjusted_em * 100.0).abs() < 1e-9);
    assert_eq!(ratio_to_f64(&adjustment.line_gap), 0.0);
}

#[test]
fn zero_width_targets_take_no_width_scaling() {
    let fallback = default_sans_serif_font();
    let mut target = sample_target();
    target.az_avg_width = Ratio { num: 0, den: 1 };
    let adjustment = compute(&target, &fallback);
    assert_eq!(adjustment.size_adjust, Ratio { num: 1, den: 1 });
    // the adjusted em square is then the fallback's own grid
    assert_eq!(adjustment.ascent, Ratio { num: 190000, den: 2048 });
    assert_eq!(adjustment.descent, Ratio { num: -50000, den: 2048 });
}

#[test]
fn zero_width_fallbacks_take_no_width_scaling() {
    let fallback = DefaultFallbackFont {
        name: String::from("Blank"),
        az_avg_width: Ratio { num: 0, den: 1 },
        units_per_em: 1000,
    };
    let target = sample_target();
    let adjustment = compute(&target, &fallback);
    assert_eq!(adjustment.size_adjust, Ratio { num: 1, den: 1 });
    assert_eq!(adjustment.ascent, Ratio { num: 190000, den: 1000 });
}

#[test]
fn adjustment_parts_round_trip() {
    let fallback = default_serif_font();
    let target = sample_target();
    let adjustment = compute(&target, &fallback);
    let parts = to_parts(&adjustment);
    assert_eq!(parts.len(), 8);
    assert_eq!(from_parts(&parts), Some(adjustment));
}

#[test]
fn malformed_part_lists_are_rejected() {
    let fallback = default_sans_serif_font();
    let target = sample_target();
    let adjustment = compute(&target, &fallback);
    let mut short = to_parts(&adjustment);
    short.pop();
    assert_eq!(from_parts(&short), None);
    let mut bad_denominator = to_parts(&adjustment);
    bad_denominator[1] = 0;
    assert_eq!(from_parts(&bad_denominator), None);
    assert_eq!(from_parts(&Vec::new()), None);
}

#[test]
fn adjustments_compare_by_value_for_caching() {
    let fallback = default_sans_serif_font();
    let target = sample_target();
    let a = compute(&target, &fallback);
    let b = compute(&target, &fallback);
    assert_eq!(a, b);
    let mut other = sample_target();
    other.ascent = 1901;
    let c = compute(&other, &fallback);
    assert_ne!(a, c);
}

#[test]
fn metric_well_formedness_is_checked() {
    assert!(sample_target().is_well_formed());
    let mut no_grid = sample_target();
    no_grid.units_per_em = 0;
    assert!(!no_grid.is_well_formed());
    let mut negative_width = sample_target();
    negative_width.az_avg_width = Ratio { num: -5, den: 1 };
    assert!(!negative_width.is_well_formed());
    let mut oversized = sample_target();
    oversized.az_avg_width = Ratio { num: METRIC_BOUND + 1, den: 1 };
    assert!(!oversized.is_well_formed());
}

#[test]
fn ratio_constructors_fix_their_components() {
    let half = Ratio::new(1, 2);
    assert_eq!(half, Ratio { num: 1, den: 2 });
    let whole = Ratio::from_int(-7);
    assert_eq!(whole, Ratio { num: -7, den: 1 });
    assert!(whole.is_bounded());
    assert!(!Ratio { num: 1, den: METRIC_BOUND + 1 }.is_bounded());
    let _ = FontAdjustment {
        ascent: half,
        descent: half,
        line_gap: half,
        size_adjust: whole,
    };
}
