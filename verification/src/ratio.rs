//! Non-negative fractions in parts per million.

use vstd::prelude::*;

verus! {

/// The number of parts that make one whole.
pub const RATIO_SCALE: u64 = 1_000_000;

/// A non-negative fraction, held as a whole number of millionths.
#[derive(Clone, Copy, Debug, PartialEq, Eq, Structural)]
pub struct Ratio {
    pub parts_per_million: u64,
}

impl Ratio {
    /// The fraction with the given number of millionths.
    pub fn from_parts_per_million(parts: u64) -> (ratio: Ratio)
        ensures
            ratio.parts_per_million == parts,
    {
        Ratio { parts_per_million: parts }
    }

    /// The fraction `numerator / denominator`, rounded down to a millionth. A quotient too
    /// large to hold, or a zero denominator, gives `None`.
    pub fn from_fraction(numerator: u64, denominator: u64) -> (ratio: Option<Ratio>)
        ensures
            match ratio {
                Some(r) => denominator > 0 && r.parts_per_million == (numerator * 1_000_000)
                    / (denominator as int),
                None => denominator == 0 || (numerator * 1_000_000) / (denominator as int)
                    > u64::MAX,
            },
    {
        if denominator == 0 {
            return None;
        }
        assert(numerator * 1_000_000 <= u128::MAX) by (nonlinear_arith)
            requires
                numerator <= u64::MAX,
        ;
        let scaled: u128 = (numerator as u128) * 1_000_000u128 / (denominator as u128);
        if scaled > u64::MAX as u128 {
            None
        } else {
            Some(Ratio { parts_per_million: scaled as u64 })
        }
    }

    /// The whole fraction, one.
    pub fn one() -> (ratio: Ratio)
        ensures
            ratio.parts_per_million == RATIO_SCALE,
    {
        Ratio { parts_per_million: RATIO_SCALE }
    }

    /// `value` times this fraction, rounded down.
    pub open spec fn of(&self, value: int) -> int {
        (value * self.parts_per_million) / (RATIO_SCALE as int)
    }

    /// `value` times this fraction, rounded down.
    pub fn apply(&self, value: u64) -> (scaled: u128)
        ensures
            scaled == self.of(value as int),
    {
        assert(value * self.parts_per_million <= u128::MAX) by (nonlinear_arith)
            requires
                value <= u64::MAX,
                self.parts_per_million <= u64::MAX,
        ;
        (value as u128) * (self.parts_per_million as u128) / (RATIO_SCALE as u128)
    }
}

} // verus!
