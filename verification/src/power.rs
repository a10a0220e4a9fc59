use vstd::prelude::*;

verus! {

/// A power measurement, held exactly as a count of thousandths of a watt.
///
/// A telemetry reading carries three integers `demand`, `multiplier` and
/// `divisor`, and the power in watts is `demand * multiplier * (divisor /
/// 1000)`. Keeping the numerator `demand * multiplier * divisor` as an
/// integer represents that value exactly, with no rounding.
#[derive(Clone, Copy, Debug, PartialEq, Eq, Structural)]
pub struct PowerValue {
    /// Thousandths of a watt.
    pub millis: u128,
}

impl PowerValue {
    /// Wraps a count of thousandths of a watt.
    pub fn from_millis(millis: u128) -> (p: PowerValue)
        ensures
            p.millis == millis,
    {
        PowerValue { millis }
    }

    /// The measurement as thousandths of a watt.
    pub fn millis(&self) -> (m: u128)
        ensures
            m == self.millis,
    {
        self.millis
    }
}

} // verus!
