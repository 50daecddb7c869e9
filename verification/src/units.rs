//! The unit catalog: a closed enumeration of time units, each with a fixed
//! rational conversion factor to seconds, `factor_num(u) / 10^factor_pow(u)`.
//!
//! Month and year are calendar-approximate constants (30.44 and 365.25 days),
//! a deliberate simplification.

use vstd::prelude::*;

verus! {

#[derive(Debug, Clone, Copy, PartialEq, Eq, Structural)]
pub enum Unit {
    Nanos,
    Micros,
    Millis,
    Seconds,
    Minutes,
    Hours,
    Days,
    Weeks,
    Months,
    Years,
}

/// Numerator of the unit's conversion factor to seconds.
pub open spec fn factor_num(u: Unit) -> nat {
    match u {
        Unit::Nanos => 1,
        Unit::Micros => 1,
        Unit::Millis => 1,
        Unit::Seconds => 1,
        Unit::Minutes => 60,
        Unit::Hours => 3600,
        Unit::Days => 86_400,
        Unit::Weeks => 604_800,
        Unit::Months => 2_630_016,  // 30.44 days
        Unit::Years => 31_557_600,  // 365.25 days
    }
}

/// Power-of-ten denominator of the unit's conversion factor to seconds.
pub open spec fn factor_pow(u: Unit) -> nat {
    match u {
        Unit::Nanos => 9,
        Unit::Micros => 6,
        Unit::Millis => 3,
        _ => 0,
    }
}

/// The conversion factor of `u`, as a (numerator, power-of-ten denominator) pair.
pub fn unit_factor(u: Unit) -> (r: (u64, u32))
    ensures
        r.0 == factor_num(u),
        r.1 == factor_pow(u),
        1 <= r.0 <= 31_557_600,
        r.1 <= 9,
{
    match u {
        Unit::Nanos => (1, 9),
        Unit::Micros => (1, 6),
        Unit::Millis => (1, 3),
        Unit::Seconds => (1, 0),
        Unit::Minutes => (60, 0),
        Unit::Hours => (3600, 0),
        Unit::Days => (86_400, 0),
        Unit::Weeks => (604_800, 0),
        Unit::Months => (2_630_016, 0),
        Unit::Years => (31_557_600, 0),
    }
}

} // verus!
