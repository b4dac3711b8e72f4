//! The metric-matching adjustment calculator.
//!
//! Given the measured metrics of a target webfont and a catalog fallback
//! record, `compute` derives the CSS-style metric overrides that make the
//! fallback occupy the target's footprint: a `size-adjust` scale factor that
//! equalizes average character width, and ascent/descent/line-gap overrides
//! expressed as percentages of the adjusted em square.
//!
//! All results are exact rationals of the documented formulas; no rounding
//! happens here. Formatting for textual CSS output is a downstream concern.

use vstd::prelude::*;

use crate::catalog::DefaultFallbackFont;
use crate::ratio::METRIC_BOUND;
use crate::ratio::Ratio;

verus! {

/// Measured metrics of the webfont being approximated, all in the font's
/// own design-unit space. Vertical metrics are whole design units; the
/// average lowercase advance width is an average and therefore an exact
/// rational.
#[derive(Clone, Copy, Debug, PartialEq, Eq, Structural)]
pub struct TargetFontMetrics {
    /// Ascent above the baseline, in design units.
    pub ascent: i32,
    /// Descent below the baseline, in design units (typically negative).
    pub descent: i32,
    /// Extra spacing between lines, in design units.
    pub line_gap: i32,
    /// The font's design grid resolution.
    pub units_per_em: u32,
    /// Average advance width of the lowercase Latin alphabet glyphs.
    pub az_avg_width: Ratio,
}

impl TargetFontMetrics {
    /// Well-formed input: a positive, bounded design grid, bounded vertical
    /// metrics, and a non-negative, bounded average width.
    pub open spec fn wf(self) -> bool {
        &&& 0 < self.units_per_em <= METRIC_BOUND
        &&& -METRIC_BOUND <= self.ascent <= METRIC_BOUND
        &&& -METRIC_BOUND <= self.descent <= METRIC_BOUND
        &&& -METRIC_BOUND <= self.line_gap <= METRIC_BOUND
        &&& self.az_avg_width.bounded()
        &&& self.az_avg_width.num >= 0
    }

    /// Reports whether these metrics are well formed, i.e. whether the
    /// calculator accepts them.
    pub fn is_well_formed(&self) -> (r: bool)
        ensures
            r == self.wf(),
    {
        let width_ok = self.az_avg_width.is_bounded();
        0 < self.units_per_em && self.units_per_em as i128 <= METRIC_BOUND
            && -METRIC_BOUND <= self.ascent as i128 && self.ascent as i128 <= METRIC_BOUND
            && -METRIC_BOUND <= self.descent as i128 && self.descent as i128 <= METRIC_BOUND
            && -METRIC_BOUND <= self.line_gap as i128 && self.line_gap as i128 <= METRIC_BOUND
            && width_ok && self.az_avg_width.num >= 0
    }
}

/// The computed adjustment for a fallback font. `size_adjust` is a scale
/// factor; the other three are percentages of the adjusted em box. Each is
/// an exact rational, so equality is ordinary structural equality — the
/// value participates in caching and deduplication without any caveat about
/// non-reflexive comparisons.
#[derive(Clone, Copy, Debug, PartialEq, Eq, Structural)]
pub struct FontAdjustment {
    /// `ascent-override`, in percent of the adjusted em box.
    pub ascent: Ratio,
    /// `descent-override`, in percent of the adjusted em box.
    pub descent: Ratio,
    /// `line-gap-override`, in percent of the adjusted em box.
    pub line_gap: Ratio,
    /// `size-adjust` scale factor.
    pub size_adjust: Ratio,
}

impl FontAdjustment {
    /// All four ratios are meaningful (positive denominators).
    pub open spec fn wf(self) -> bool {
        &&& self.ascent.wf()
        &&& self.descent.wf()
        &&& self.line_gap.wf()
        &&& self.size_adjust.wf()
    }
}

/// The width-scaling step degenerates when either normalized average width
/// is zero; no width scaling is applied then.
pub open spec fn spec_degenerate(t: TargetFontMetrics, fallback_width: Ratio) -> bool {
    t.az_avg_width.is_zero() || fallback_width.is_zero()
}

/// Numerator of `size_adjust`: the target's normalized average width over
/// the fallback's, or exactly one in the degenerate case.
pub open spec fn spec_size_adjust_num(
    t: TargetFontMetrics,
    fallback_width: Ratio,
    fallback_upem: u32,
) -> int {
    if spec_degenerate(t, fallback_width) {
        1
    } else {
        t.az_avg_width.num * fallback_width.den * fallback_upem
    }
}

/// Denominator of `size_adjust`.
pub open spec fn spec_size_adjust_den(
    t: TargetFontMetrics,
    fallback_width: Ratio,
    fallback_upem: u32,
) -> int {
    if spec_degenerate(t, fallback_width) {
        1
    } else {
        t.az_avg_width.den * fallback_width.num * t.units_per_em
    }
}

/// Numerator of a vertical override: the target metric, as a percentage
/// (times 100), over the adjusted em square.
pub open spec fn spec_vertical_num(
    metric: int,
    t: TargetFontMetrics,
    fallback_width: Ratio,
    fallback_upem: u32,
) -> int {
    if spec_degenerate(t, fallback_width) {
        100 * metric
    } else {
        metric * (100 * (t.az_avg_width.den * fallback_width.num * t.units_per_em))
    }
}

/// Denominator of a vertical override: the adjusted em square,
/// `fallback_upem * size_adjust`, put over a common denominator.
pub open spec fn spec_vertical_den(
    t: TargetFontMetrics,
    fallback_width: Ratio,
    fallback_upem: u32,
) -> int {
    if spec_degenerate(t, fallback_width) {
        fallback_upem as int
    } else {
        t.az_avg_width.num * fallback_width.den * fallback_upem * fallback_upem
    }
}

/// Full characterization of the computed adjustment: every component of the
/// result equals the documented formula applied to the inputs.
pub open spec fn compute_post(
    t: TargetFontMetrics,
    fallback_width: Ratio,
    fallback_upem: u32,
    r: FontAdjustment,
) -> bool {
    &&& r.size_adjust.num == spec_size_adjust_num(t, fallback_width, fallback_upem)
    &&& r.size_adjust.den == spec_size_adjust_den(t, fallback_width, fallback_upem)
    &&& r.ascent.num == spec_vertical_num(t.ascent as int, t, fallback_width, fallback_upem)
    &&& r.ascent.den == spec_vertical_den(t, fallback_width, fallback_upem)
    &&& r.descent.num == spec_vertical_num(t.descent as int, t, fallback_width, fallback_upem)
    &&& r.descent.den == spec_vertical_den(t, fallback_width, fallback_upem)
    &&& r.line_gap.num == spec_vertical_num(t.line_gap as int, t, fallback_width, fallback_upem)
    &&& r.line_gap.den == spec_vertical_den(t, fallback_width, fallback_upem)
}

/// Bound on a product of non-negative factors, with strict positivity when
/// both factors are positive.
proof fn lemma_mul_nonneg_bound(x: int, y: int, bx: int, by: int)
    by (nonlinear_arith)
    requires
        0 <= x <= bx,
        0 <= y <= by,
    ensures
        0 <= x * y <= bx * by,
        x > 0 && y > 0 ==> x * y > 0,
{
}

/// Bound on a product whose left factor may be negative.
proof fn lemma_mul_signed_bound(x: int, y: int, bx: int, by: int)
    by (nonlinear_arith)
    requires
        -bx <= x <= bx,
        0 <= y <= by,
    ensures
        -(bx * by) <= x * y <= bx * by,
{
}

/// Computes the adjustment that makes `fallback` approximate the geometry
/// of the font measured by `target`:
///
/// 1. `size_adjust` is the ratio of the two fonts' normalized average
///    lowercase advance widths (each width divided by its own units-per-em),
///    or exactly one when either width is zero.
/// 2. The adjusted em square is `fallback.units_per_em * size_adjust`.
/// 3. Each vertical override is the corresponding target metric divided by
///    the adjusted em square, times 100.
///
/// Total over well-formed input; every result component is the exact
/// rational value of its formula.
pub fn compute(target: &TargetFontMetrics, fallback: &DefaultFallbackFont) -> (r: FontAdjustment)
    requires
        target.wf(),
        fallback.wf(),
    ensures
        compute_post(*target, fallback.az_avg_width, fallback.units_per_em, r),
        r.wf(),
{
    let an: i128 = target.az_avg_width.num;
    let ad: i128 = target.az_avg_width.den;
    let tu: i128 = target.units_per_em as i128;
    let bn: i128 = fallback.az_avg_width.num;
    let bd: i128 = fallback.az_avg_width.den;
    let fu: i128 = fallback.units_per_em as i128;
    let asc: i128 = target.ascent as i128;
    let desc: i128 = target.descent as i128;
    let gap: i128 = target.line_gap as i128;
    if an == 0 || bn == 0 {
        FontAdjustment {
            ascent: Ratio { num: 100 * asc, den: fu },
            descent: Ratio { num: 100 * desc, den: fu },
            line_gap: Ratio { num: 100 * gap, den: fu },
            size_adjust: Ratio { num: 1, den: 1 },
        }
    } else {
        proof {
            lemma_mul_nonneg_bound(an as int, bd as int, METRIC_BOUND as int, METRIC_BOUND as int);
        }
        let width_cross: i128 = an * bd;
        proof {
            lemma_mul_nonneg_bound(
                width_cross as int,
                fu as int,
                METRIC_BOUND as int * METRIC_BOUND as int,
                METRIC_BOUND as int,
            );
        }
        let sa_num: i128 = width_cross * fu;
        proof {
            lemma_mul_nonneg_bound(
                sa_num as int,
                fu as int,
                METRIC_BOUND as int * METRIC_BOUND as int * METRIC_BOUND as int,
                METRIC_BOUND as int,
            );
        }
        let vert_den: i128 = sa_num * fu;
        proof {
            lemma_mul_nonneg_bound(ad as int, bn as int, METRIC_BOUND as int, METRIC_BOUND as int);
        }
        let den_cross: i128 = ad * bn;
        proof {
            lemma_mul_nonneg_bound(
                den_cross as int,
                tu as int,
                METRIC_BOUND as int * METRIC_BOUND as int,
                METRIC_BOUND as int,
            );
        }
        let sa_den: i128 = den_cross * tu;
        let vert_scale: i128 = 100 * sa_den;
        proof {
            let vert_scale_bound: int = 100 * (METRIC_BOUND as int * METRIC_BOUND as int
                * METRIC_BOUND as int);
            lemma_mul_signed_bound(asc as int, vert_scale as int, METRIC_BOUND as int,
                vert_scale_bound);
            lemma_mul_signed_bound(desc as int, vert_scale as int, METRIC_BOUND as int,
                vert_scale_bound);
            lemma_mul_signed_bound(gap as int, vert_scale as int, METRIC_BOUND as int,
                vert_scale_bound);
        }
        FontAdjustment {
            ascent: Ratio { num: asc * vert_scale, den: vert_den },
            descent: Ratio { num: desc * vert_scale, den: vert_den },
            line_gap: Ratio { num: gap * vert_scale, den: vert_den },
            size_adjust: Ratio { num: sa_num, den: sa_den },
        }
    }
}

/// The adjustment computation is deterministic: its contract pins every
/// component of the result, so any two results computed from identical
/// inputs are structurally identical — the value is safe to cache keyed by
/// the input pair.
pub proof fn lemma_compute_deterministic(
    t: TargetFontMetrics,
    fallback_width: Ratio,
    fallback_upem: u32,
    r1: FontAdjustment,
    r2: FontAdjustment,
)
    requires
        compute_post(t, fallback_width, fallback_upem, r1),
        compute_post(t, fallback_width, fallback_upem, r2),
    ensures
        r1 == r2,
{
}

/// Zero/one facts about matched widths, over bare integers.
proof fn lemma_matched_widths_cancel(an: int, ad: int, bn: int, bd: int, u: int)
    by (nonlinear_arith)
    requires
        0 <= an,
        0 < ad,
        0 <= bn,
        0 < bd,
        0 < u,
        an * bd == bn * ad,
    ensures
        an == 0 <==> bn == 0,
        an * bd * u == ad * bn * u,
{
}

/// When the target and fallback fonts share a units-per-em grid and denote
/// the same average lowercase advance width, no size adjustment is needed:
/// the computed `size_adjust` is exactly one.
pub proof fn lemma_size_adjust_one_when_matched(
    t: TargetFontMetrics,
    fallback_width: Ratio,
    fallback_upem: u32,
    r: FontAdjustment,
)
    requires
        t.wf(),
        fallback_width.bounded(),
        fallback_width.num >= 0,
        0 < fallback_upem,
        compute_post(t, fallback_width, fallback_upem, r),
        t.units_per_em == fallback_upem,
        t.az_avg_width.eq_value(fallback_width),
    ensures
        r.size_adjust.is_one(),
{
    lemma_matched_widths_cancel(
        t.az_avg_width.num as int,
        t.az_avg_width.den as int,
        fallback_width.num as int,
        fallback_width.den as int,
        fallback_upem as int,
    );
}

/// Strict monotonicity of a cross-multiplied ratio comparison under
/// multiplication by the same positive factors, over bare integers.
proof fn lemma_width_ratio_monotonic(
    a1n: int,
    a1d: int,
    a2n: int,
    a2d: int,
    bn: int,
    bd: int,
    u: int,
    w: int,
)
    requires
        0 < a1d,
        0 < a2d,
        0 < bn,
        0 < bd,
        0 < u,
        0 < w,
        a1n * a2d < a2n * a1d,
    ensures
        (a1n * bd * u) * (a2d * bn * w) < (a2n * bd * u) * (a1d * bn * w),
{
    assert((bd * u) * (bn * w) > 0) by (nonlinear_arith)
        requires
            0 < bd,
            0 < u,
            0 < bn,
            0 < w,
    ;
    assert((a1n * bd * u) * (a2d * bn * w) == (a1n * a2d) * ((bd * u) * (bn * w)))
        by (nonlinear_arith);
    assert((a2n * bd * u) * (a1d * bn * w) == (a2n * a1d) * ((bd * u) * (bn * w)))
        by (nonlinear_arith);
    assert((a1n * a2d) * ((bd * u) * (bn * w)) < (a2n * a1d) * ((bd * u) * (bn * w)))
        by (nonlinear_arith)
        requires
            a1n * a2d < a2n * a1d,
            (bd * u) * (bn * w) > 0,
    ;
}

/// Holding everything else fixed, a larger target average width yields a
/// strictly larger `size_adjust`, provided both widths are nonzero (a zero
/// width falls to the degenerate `size_adjust = 1` policy instead).
pub proof fn lemma_size_adjust_monotonic(
    t1: TargetFontMetrics,
    t2: TargetFontMetrics,
    fallback_width: Ratio,
    fallback_upem: u32,
    r1: FontAdjustment,
    r2: FontAdjustment,
)
    requires
        t1.wf(),
        t2.wf(),
        fallback_width.bounded(),
        fallback_width.num > 0,
        0 < fallback_upem,
        compute_post(t1, fallback_width, fallback_upem, r1),
        compute_post(t2, fallback_width, fallback_upem, r2),
        t1.units_per_em == t2.units_per_em,
        t1.az_avg_width.num > 0,
        t1.az_avg_width.lt_value(t2.az_avg_width),
    ensures
        r1.size_adjust.lt_value(r2.size_adjust),
{
    let a1n: int = t1.az_avg_width.num as int;
    let a1d: int = t1.az_avg_width.den as int;
    let a2n: int = t2.az_avg_width.num as int;
    let a2d: int = t2.az_avg_width.den as int;
    assert(a2n > 0) by (nonlinear_arith)
        requires
            a1n > 0,
            a1d > 0,
            a2d > 0,
            a1n * a2d < a2n * a1d,
    ;
    lemma_width_ratio_monotonic(
        a1n,
        a1d,
        a2n,
        a2d,
        fallback_width.num as int,
        fallback_width.den as int,
        fallback_upem as int,
        t1.units_per_em as int,
    );
}

/// Each vertical override is the corresponding target metric, times 100,
/// divided by the adjusted em square. Stated by cross-multiplication as an
/// exact rational identity:
/// `override * size_adjust * fallback_upem == 100 * metric`
/// — so every override is proportional to its target metric and inversely
/// proportional to the size adjustment.
pub proof fn lemma_vertical_overrides_proportional(
    t: TargetFontMetrics,
    fallback_width: Ratio,
    fallback_upem: u32,
    r: FontAdjustment,
)
    requires
        t.wf(),
        fallback_width.bounded(),
        fallback_width.num >= 0,
        0 < fallback_upem,
        compute_post(t, fallback_width, fallback_upem, r),
    ensures
        r.ascent.num * r.size_adjust.num * fallback_upem == 100 * t.ascent * r.ascent.den
            * r.size_adjust.den,
        r.descent.num * r.size_adjust.num * fallback_upem == 100 * t.descent * r.descent.den
            * r.size_adjust.den,
        r.line_gap.num * r.size_adjust.num * fallback_upem == 100 * t.line_gap * r.line_gap.den
            * r.size_adjust.den,
{
    let an: int = t.az_avg_width.num as int;
    let ad: int = t.az_avg_width.den as int;
    let tu: int = t.units_per_em as int;
    let bn: int = fallback_width.num as int;
    let bd: int = fallback_width.den as int;
    let u: int = fallback_upem as int;
    if spec_degenerate(t, fallback_width) {
        lemma_override_balance_degenerate(t.ascent as int, u, r.ascent.num as int,
            r.ascent.den as int);
        lemma_override_balance_degenerate(t.descent as int, u, r.descent.num as int,
            r.descent.den as int);
        lemma_override_balance_degenerate(t.line_gap as int, u, r.line_gap.num as int,
            r.line_gap.den as int);
    } else {
        lemma_override_balance(t.ascent as int, an, ad, bn, bd, tu, u, r.ascent.num as int,
            r.ascent.den as int);
        lemma_override_balance(t.descent as int, an, ad, bn, bd, tu, u, r.descent.num as int,
            r.descent.den as int);
        lemma_override_balance(t.line_gap as int, an, ad, bn, bd, tu, u, r.line_gap.num as int,
            r.line_gap.den as int);
    }
}

/// The override identity in the degenerate (no width scaling) case, over
/// bare integers.
proof fn lemma_override_balance_degenerate(m: int, u: int, vnum: int, vden: int)
    requires
        vnum == 100 * m,
        vden == u,
    ensures
        vnum * 1 * u == 100 * m * vden * 1,
{
    assert((100 * m) * 1 * u == 100 * m * u * 1) by (nonlinear_arith);
}

/// The override identity in the scaling case, over bare integers.
proof fn lemma_override_balance(
    m: int,
    an: int,
    ad: int,
    bn: int,
    bd: int,
    tu: int,
    u: int,
    vnum: int,
    vden: int,
)
    requires
        vnum == m * (100 * (ad * bn * tu)),
        vden == an * bd * u * u,
    ensures
        vnum * (an * bd * u) * u == 100 * m * vden * (ad * bn * tu),
{
    assert((m * (100 * (ad * bn * tu))) * (an * bd * u) * u == 100 * m * (an * bd * u * u) * (ad
        * bn * tu)) by (nonlinear_arith);
}

/// The flat, order-significant field list of an adjustment:
/// ascent, descent, line-gap, size-adjust, each as numerator then
/// denominator.
pub open spec fn spec_to_parts(a: FontAdjustment) -> Seq<i128> {
    seq![
        a.ascent.num,
        a.ascent.den,
        a.descent.num,
        a.descent.den,
        a.line_gap.num,
        a.line_gap.den,
        a.size_adjust.num,
        a.size_adjust.den,
    ]
}

/// The adjustment a flat field list denotes: defined exactly for lists of
/// eight components whose denominator positions are positive.
pub open spec fn spec_from_parts(s: Seq<i128>) -> Option<FontAdjustment> {
    if s.len() == 8 && s[1] > 0 && s[3] > 0 && s[5] > 0 && s[7] > 0 {
        Some(
            FontAdjustment {
                ascent: Ratio { num: s[0], den: s[1] },
                descent: Ratio { num: s[2], den: s[3] },
                line_gap: Ratio { num: s[4], den: s[5] },
                size_adjust: Ratio { num: s[6], den: s[7] },
            },
        )
    } else {
        None
    }
}

/// Serializes an adjustment field for field, for cross-process caching.
pub fn to_parts(a: &FontAdjustment) -> (r: Vec<i128>)
    ensures
        r@ == spec_to_parts(*a),
{
    let mut v: Vec<i128> = Vec::new();
    v.push(a.ascent.num);
    v.push(a.ascent.den);
    v.push(a.descent.num);
    v.push(a.descent.den);
    v.push(a.line_gap.num);
    v.push(a.line_gap.den);
    v.push(a.size_adjust.num);
    v.push(a.size_adjust.den);
    proof {
        assert(v@ =~= spec_to_parts(*a));
    }
    v
}

/// Deserializes an adjustment from its flat field list. Returns `None` for
/// a list of the wrong length or with a non-positive denominator; a
/// successful result is always well formed.
pub fn from_parts(v: &Vec<i128>) -> (r: Option<FontAdjustment>)
    ensures
        r == spec_from_parts(v@),
        r matches Some(a) ==> a.wf(),
{
    if v.len() == 8 && v[1] > 0 && v[3] > 0 && v[5] > 0 && v[7] > 0 {
        Some(
            FontAdjustment {
                ascent: Ratio { num: v[0], den: v[1] },
                descent: Ratio { num: v[2], den: v[3] },
                line_gap: Ratio { num: v[4], den: v[5] },
                size_adjust: Ratio { num: v[6], den: v[7] },
            },
        )
    } else {
        None
    }
}

/// Round trip: deserializing the serialized field list of a well-formed
/// adjustment yields the original value.
pub proof fn lemma_parts_round_trip(a: FontAdjustment)
    requires
        a.wf(),
    ensures
        spec_from_parts(spec_to_parts(a)) == Some(a),
{
}

} // verus!
