//! Exact rational numbers used to carry font metrics.
//!
//! Font metrics are averages and ratios of integer design-unit measurements,
//! so every value this library handles is an exact rational. Holding them as
//! a numerator/denominator pair keeps the metric arithmetic exact and gives
//! the adjustment values a well-defined structural equality, which the
//! surrounding build system needs for caching and deduplication.

use vstd::prelude::*;

verus! {

/// Largest magnitude accepted for a metric component (a rational's numerator
/// or denominator, or a units-per-em value). Keeping every input component
/// within this bound guarantees that all intermediate products of the
/// adjustment formulas fit comfortably in an `i128`. Real font metrics are
/// several orders of magnitude smaller.
pub const METRIC_BOUND: i128 = 100_000_000;

/// An exact rational number `num / den`, with `den > 0`.
///
/// The representation is not reduced: two `Ratio` values are structurally
/// equal only when both components match. Value-level (cross-multiplied)
/// equality and ordering are available as spec predicates.
#[derive(Clone, Copy, Debug, PartialEq, Eq, Structural)]
pub struct Ratio {
    /// Numerator; carries the sign of the value.
    pub num: i128,
    /// Denominator; always positive for a well-formed value.
    pub den: i128,
}

impl Ratio {
    /// A meaningful rational: positive denominator.
    pub open spec fn wf(self) -> bool {
        self.den > 0
    }

    /// A well-formed input metric: positive denominator and both components
    /// within the working bound, so that products taken during the
    /// adjustment computation cannot overflow.
    pub open spec fn bounded(self) -> bool {
        &&& 0 < self.den <= METRIC_BOUND
        &&& -METRIC_BOUND <= self.num <= METRIC_BOUND
    }

    /// `self` and `other` denote the same rational value.
    pub open spec fn eq_value(self, other: Ratio) -> bool {
        self.num * other.den == other.num * self.den
    }

    /// `self` denotes a strictly smaller value than `other`
    /// (meaningful when both are well formed).
    pub open spec fn lt_value(self, other: Ratio) -> bool {
        self.num * other.den < other.num * self.den
    }

    /// `self` denotes exactly the value one.
    pub open spec fn is_one(self) -> bool {
        self.num == self.den
    }

    /// `self` denotes exactly the value zero.
    pub open spec fn is_zero(self) -> bool {
        self.num == 0
    }

    /// Builds the rational `num / den`.
    pub fn new(num: i128, den: i128) -> (r: Ratio)
        requires
            den > 0,
        ensures
            r.num == num,
            r.den == den,
            r.wf(),
    {
        Ratio { num, den }
    }

    /// Builds the whole number `n`.
    pub fn from_int(n: i64) -> (r: Ratio)
        ensures
            r.num == n as int,
            r.den == 1,
            r.wf(),
    {
        Ratio { num: n as i128, den: 1 }
    }

    /// Reports whether this value is a well-formed input metric, i.e. the
    /// denominator is positive and both components are within
    /// [`METRIC_BOUND`].
    pub fn is_bounded(&self) -> (r: bool)
        ensures
            r == self.bounded(),
    {
        0 < self.den && self.den <= METRIC_BOUND && -METRIC_BOUND <= self.num
            && self.num <= METRIC_BOUND
    }
}

} // verus!
