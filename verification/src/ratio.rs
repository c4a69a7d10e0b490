//! Exact fractions. The chart's proportions are kept as fractions of
//! integers until the host turns them into pixels.

use vstd::prelude::*;

verus! {

/// A fraction of two integers, as a mathematical value.
pub struct Fraction {
    /// Numerator.
    pub num: int,
    /// Denominator.
    pub den: int,
}

impl Fraction {
    /// The denominator is positive. Comparisons are meaningful between
    /// fractions of which this holds.
    pub open spec fn wf(self) -> bool {
        self.den > 0
    }

    /// The whole number `n`.
    pub open spec fn whole(n: int) -> Fraction {
        Fraction { num: n, den: 1 }
    }

    /// The given number of hundredths.
    pub open spec fn hundredths(n: int) -> Fraction {
        Fraction { num: n, den: 100 }
    }

    /// The fraction is smaller than `other`.
    pub open spec fn lt(self, other: Fraction) -> bool {
        self.num * other.den < other.num * self.den
    }

    /// The fraction is at most `other`.
    pub open spec fn le(self, other: Fraction) -> bool {
        self.num * other.den <= other.num * self.den
    }

    /// The fraction has the same value as `other`.
    pub open spec fn same(self, other: Fraction) -> bool {
        self.num * other.den == other.num * self.den
    }

    /// The fraction multiplied by itself.
    pub open spec fn squared(self) -> Fraction {
        Fraction { num: self.num * self.num, den: self.den * self.den }
    }
}

/// The fraction `num / den`, as the host receives it.
#[derive(Debug, Clone, Copy, PartialEq, Eq, Structural)]
pub struct Ratio {
    /// Numerator.
    pub num: i128,
    /// Denominator. Positive in every fraction that this crate hands out.
    pub den: i128,
}

impl View for Ratio {
    type V = Fraction;

    open spec fn view(&self) -> Fraction {
        Fraction { num: self.num as int, den: self.den as int }
    }
}

} // verus!
