//! Fallback-font descriptors for a web typography system.
//!
//! Given the measured metrics of a webfont that a page wants to use, this
//! library selects a default substitute font and synthesizes CSS-style
//! metric-override ratios so that text rendered in the substitute occupies
//! the same footprint as text rendered in the final webfont, eliminating
//! layout shift during the font swap.
//!
//! All metric arithmetic is carried out on exact rational numbers, so every
//! computed adjustment is a precise value of the documented formulas; a
//! caller that needs floating-point output converts at its own boundary.

pub mod adjustment;
pub mod catalog;
pub mod fallback;
pub mod ratio;
