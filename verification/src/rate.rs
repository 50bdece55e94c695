//! Instantaneous match-rate computation.
//!
//! A rate is kept as an exact rational number of matches per unit of time.
//! A per-minute rate below one match per minute is re-expressed per hour so
//! that small rates stay legible.

use vstd::prelude::*;

verus! {

/// The time unit a [`Rate`] is expressed in.
#[derive(Clone, Copy, PartialEq, Eq, Structural, Debug)]
pub enum RateUnit {
    Minute,
    Hour,
}

/// The display name of a unit.
pub open spec fn unit_text(u: RateUnit) -> Seq<char> {
    if u == RateUnit::Minute {
        "minute"@
    } else {
        "hour"@
    }
}

impl RateUnit {
    /// The unit's display name.
    pub fn text(&self) -> (r: String)
        ensures
            r@ == unit_text(*self),
            *self == RateUnit::Minute ==> r@ == "minute"@,
            *self == RateUnit::Hour ==> r@ == "hour"@,
    {
        match self {
            RateUnit::Minute => String::from_str("minute"),
            RateUnit::Hour => String::from_str("hour"),
        }
    }
}

/// An exact match rate: `num / den` matches per `unit`.
#[derive(Clone, Copy, Debug)]
pub struct Rate {
    pub num: u128,
    pub den: u128,
    pub unit: RateUnit,
}

impl Rate {
    /// A valid rate has a positive denominator.
    pub open spec fn wf(&self) -> bool {
        self.den > 0
    }
}

/// The rate of `count` matches over `seconds` seconds: with no time elapsed
/// it is zero per hour; otherwise the per-minute rate `60 * count / seconds`
/// is kept when it is at least one match per minute and re-expressed per
/// hour when it is below one.
pub open spec fn rate_of(count: u64, seconds: u64) -> Rate {
    if seconds == 0 {
        Rate { num: 0, den: 1, unit: RateUnit::Hour }
    } else if 60 * count >= seconds {
        Rate { num: (60 * count) as u128, den: seconds as u128, unit: RateUnit::Minute }
    } else {
        Rate { num: (3600 * count) as u128, den: seconds as u128, unit: RateUnit::Hour }
    }
}

/// The rate of `count` matches over `seconds` seconds.
pub fn calc_rate(count: u64, seconds: u64) -> (r: Rate)
    ensures
        r == rate_of(count, seconds),
        r.wf(),
        seconds == 0 ==> r.num == 0 && r.den == 1 && r.unit == RateUnit::Hour,
        seconds > 0 && 60 * count >= seconds ==> r.num == 60 * count && r.den == seconds
            && r.unit == RateUnit::Minute,
        seconds > 0 && 60 * count < seconds ==> r.num == 3600 * count && r.den == seconds
            && r.unit == RateUnit::Hour,
{
    if seconds == 0 {
        Rate { num: 0, den: 1, unit: RateUnit::Hour }
    } else {
        let per_minute: u128 = 60 * (count as u128);
        if per_minute >= seconds as u128 {
            Rate { num: per_minute, den: seconds as u128, unit: RateUnit::Minute }
        } else {
            Rate { num: 60 * per_minute, den: seconds as u128, unit: RateUnit::Hour }
        }
    }
}

} // verus!
