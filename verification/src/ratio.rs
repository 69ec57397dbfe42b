//! Exact fractions, for the coordinates that the GPU takes as normalized
//! numbers.

use vstd::prelude::*;

verus! {

/// The fraction `num / den`. With a zero `den` it stands for no number.
#[derive(Clone, Copy, Debug, PartialEq, Eq, Structural)]
pub struct Ratio {
    pub num: i64,
    pub den: i64,
}

impl Ratio {
    /// Whether the fraction is a number from zero to one.
    pub open spec fn in_unit_interval(self) -> bool {
        self.den > 0 && 0 <= self.num && self.num <= self.den
    }

    /// Whether the fraction is a number from minus one to one.
    pub open spec fn in_signed_unit_interval(self) -> bool {
        self.den > 0 && -self.den <= self.num && self.num <= self.den
    }
}

} // verus!
