//! Exact fractions, for quantities that the flight plan fixes without rounding.

use vstd::prelude::*;

verus! {

/// The number `num / den`. The denominator is positive.
#[derive(Debug, Clone, Copy, PartialEq, Eq, Structural)]
pub struct Ratio {
    pub num: i128,
    pub den: i128,
}

/// What a `Ratio` stands for in contracts: the same fraction over the
/// unbounded integers.
pub struct Fraction {
    pub num: int,
    pub den: int,
}

impl View for Ratio {
    type V = Fraction;

    open spec fn view(&self) -> Fraction {
        Fraction { num: self.num as int, den: self.den as int }
    }
}

impl Fraction {
    /// The number `millionths / 1_000_000`.
    pub open spec fn micro(millionths: int) -> Fraction {
        Fraction { num: millionths, den: 1_000_000 }
    }

    /// The denominator is positive.
    pub open spec fn wf(self) -> bool {
        self.den > 0
    }

    /// Both fractions are the same number.
    pub open spec fn same_value(self, other: Fraction) -> bool {
        self.num * other.den == other.num * self.den
    }

    /// The fraction is the number `millionths / 1_000_000`.
    pub open spec fn is_micro(self, millionths: int) -> bool {
        self.same_value(Fraction::micro(millionths))
    }

    /// The fraction is not negative.
    pub open spec fn non_negative(self) -> bool {
        self.num >= 0
    }
}

impl Ratio {
    /// The number `millionths / 1_000_000`.
    pub fn micro(millionths: i64) -> (r: Ratio)
        ensures
            r@ == Fraction::micro(millionths as int),
            r@.wf(),
    {
        Ratio { num: millionths as i128, den: 1_000_000 }
    }
}

} // verus!
