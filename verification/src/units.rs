//! Measurement units and exact conversion between them.
//!
//! The engine stores every length in its canonical unit, milli-inches;
//! entering or displaying a value in centimeters is a pure conversion by
//! the exact ratio 1 inch = 2.54 cm = 127/50 cm.

use crate::frac::Frac;
use crate::grid::MAX_DIMENSION;
use vstd::prelude::*;

verus! {

/// The units a user can enter and read lengths in.
#[derive(Debug, Clone, Copy, PartialEq, Eq, Structural)]
pub enum Units {
    Inches,
    Centimeters,
}

/// Converting an exact value between units: multiplication by 127/50
/// (inches to centimeters), by 50/127 (centimeters to inches), or the
/// identity when the units agree.
pub open spec fn spec_convert(value: Frac, from: Units, to: Units) -> Frac {
    match (from, to) {
        (Units::Inches, Units::Centimeters) => Frac {
            num: (value.num * 127) as u128,
            den: (value.den * 50) as u128,
        },
        (Units::Centimeters, Units::Inches) => Frac {
            num: (value.num * 50) as u128,
            den: (value.den * 127) as u128,
        },
        _ => value,
    }
}

/// Convert an exact value from one unit to the other.
pub fn convert(value: Frac, from: Units, to: Units) -> (r: Frac)
    requires
        value.wf(),
        value.num <= u64::MAX,
        value.den <= u64::MAX,
    ensures
        r == spec_convert(value, from, to),
        r.wf(),
{
    match (from, to) {
        (Units::Inches, Units::Centimeters) => Frac { num: value.num * 127, den: value.den * 50 },
        (Units::Centimeters, Units::Inches) => Frac { num: value.num * 50, den: value.den * 127 },
        _ => value,
    }
}

/// Converting a value to the other unit and back reproduces the original
/// value exactly, whatever the pair of units.
pub proof fn lemma_unit_round_trip(value: Frac, from: Units, to: Units)
    requires
        value.wf(),
        value.num <= u64::MAX,
        value.den <= u64::MAX,
    ensures
        spec_convert(spec_convert(value, from, to), to, from).same_value(value),
        spec_convert(spec_convert(value, from, to), to, from).wf(),
{
    let rt = spec_convert(spec_convert(value, from, to), to, from);
    match (from, to) {
        (Units::Inches, Units::Centimeters) | (Units::Centimeters, Units::Inches) => {
            assert(rt.num == value.num * 127 * 50 || rt.num == value.num * 50 * 127);
            assert(rt.den == value.den * 50 * 127 || rt.den == value.den * 127 * 50);
            assert(rt.num * value.den == value.num * rt.den) by (nonlinear_arith)
                requires
                    rt.num == value.num * 127 * 50 || rt.num == value.num * 50 * 127,
                    rt.den == value.den * 50 * 127 || rt.den == value.den * 127 * 50,
            ;
        },
        _ => {
            assert(rt == value);
        },
    }
}

/// A length entered in milli-units of a display unit, as canonical
/// milli-inches, rounding down to the engine's resolution.
pub fn to_milli_inches(value: u64, units: Units) -> (r: u64)
    ensures
        units == Units::Inches ==> r == value,
        units == Units::Centimeters ==> r == (value * 50) as int / 127,
        r <= value,
{
    match units {
        Units::Inches => value,
        Units::Centimeters => {
            let t: u128 = (value as u128) * 50 / 127;
            proof {
                assert((value as int) * 50 / 127 <= value as int) by (nonlinear_arith);
            }
            t as u64
        },
    }
}

/// A canonical length in milli-inches, shown in milli-units of a display
/// unit, rounding down to that unit's resolution.
pub fn from_milli_inches(value: u64, units: Units) -> (r: u64)
    requires
        value <= MAX_DIMENSION,
    ensures
        units == Units::Inches ==> r == value,
        units == Units::Centimeters ==> r == (value * 127) as int / 50,
{
    match units {
        Units::Inches => value,
        Units::Centimeters => value * 127 / 50,
    }
}

} // verus!
