//! Exact non-negative rationals, the engine's fractional coordinates.

use vstd::prelude::*;

verus! {

/// An exact non-negative rational `num / den`. Well-formed when `den >= 1`.
///
/// The engine never rounds a fractional coordinate: a UV coordinate or a
/// display coordinate is handed out as the exact pair of numerator and
/// denominator, and two coordinates that the geometry says are equal are
/// equal as stored pairs.
#[derive(Debug, Clone, Copy, PartialEq, Eq, Structural)]
pub struct Frac {
    pub num: u128,
    pub den: u128,
}

impl Frac {
    /// The denominator is positive, so the pair denotes a rational.
    pub open spec fn wf(self) -> bool {
        self.den >= 1
    }

    /// `self` and `other` denote the same rational (cross multiplication).
    pub open spec fn same_value(self, other: Frac) -> bool {
        self.num * other.den == other.num * self.den
    }

    /// `self <= other` as rationals (cross multiplication; both well-formed).
    pub open spec fn spec_le(self, other: Frac) -> bool {
        self.num * other.den <= other.num * self.den
    }

    /// The rational lies in the unit interval `[0, 1]`.
    pub open spec fn in_unit_interval(self) -> bool {
        self.num <= self.den
    }
}

} // verus!
