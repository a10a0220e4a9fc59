use vstd::arithmetic::mul::lemma_mul_upper_bound;
use vstd::prelude::*;

use crate::hex::{all_hex_digits, check_all_hex, hex_value, max_field_value, parse_hex_digits};
use crate::power::PowerValue;

verus! {

/// Why a reading failed to decode into a power value.
#[derive(Clone, Copy, Debug, PartialEq, Eq, Structural)]
pub enum DecodeError {
    /// A hex field is missing its `0x` prefix, has no digits after the
    /// prefix, or holds a character that is not a hex digit.
    Malformed,
    /// A hex field's digits read to a value above `i64::MAX`.
    TooLarge,
    /// Every field is well formed, but the product of the three values
    /// does not fit the power representation.
    Overflow,
}

/// The value of one hex field of a reading: a two-character `0x` prefix,
/// then at least one hex digit, reading to at most `i64::MAX`.
pub open spec fn spec_field(s: Seq<char>) -> Result<nat, DecodeError> {
    if s.len() < 3 || s[0] != '0' || s[1] != 'x' || !all_hex_digits(s.skip(2)) {
        Err(DecodeError::Malformed)
    } else if hex_value(s.skip(2)) > max_field_value() {
        Err(DecodeError::TooLarge)
    } else {
        Ok(hex_value(s.skip(2)))
    }
}

/// Strips the `0x` prefix of one hex field and reads the digits.
pub fn parse_field(s: &str) -> (r: Result<u64, DecodeError>)
    ensures
        r matches Ok(v) ==> spec_field(s@) == Ok::<nat, DecodeError>(v as nat),
        r matches Err(e) ==> spec_field(s@) == Err::<nat, DecodeError>(e),
{
    let n = s.unicode_len();
    if n < 3 {
        return Err(DecodeError::Malformed);
    }
    if s.get_char(0) != '0' || s.get_char(1) != 'x' {
        return Err(DecodeError::Malformed);
    }
    let digits = s.substring_char(2, n);
    proof {
        assert(digits@ =~= s@.skip(2));
    }
    if !check_all_hex(digits) {
        return Err(DecodeError::Malformed);
    }
    match parse_hex_digits(digits) {
        Some(v) => Ok(v),
        None => Err(DecodeError::TooLarge),
    }
}

/// A reading with a bad hex field never decodes silently: whenever any of
/// the three numeric fields fails to decode, the whole reading decodes to
/// an error, never to a default value.
pub proof fn lemma_bad_field_never_decodes(
    demand: Seq<char>,
    multiplier: Seq<char>,
    divisor: Seq<char>,
)
    requires
        spec_field(demand) is Err || spec_field(multiplier) is Err || spec_field(divisor) is Err,
    ensures
        spec_power_millis(demand, multiplier, divisor) is Err,
{
}

/// One telemetry reading as the remote service reports it: every field a
/// string, the three numeric ones hex-encoded with a `0x` prefix. The
/// display-formatting fields are carried but take no part in the power
/// computation.
#[derive(Clone, Debug)]
pub struct EagleDemand {
    pub device_mac_id: String,
    pub meter_mac_id: String,
    pub time_stamp: String,
    pub demand: String,
    pub multiplier: String,
    pub divisor: String,
    pub digits_right: String,
    pub digits_left: String,
    pub suppress_leading_zero: String,
}

/// The power of a reading, in thousandths of a watt: the product of the
/// decoded `demand`, `multiplier` and `divisor` fields, since the power in
/// watts is `demand * multiplier * (divisor / 1000)`. The first field that
/// fails to decode names the error; a product beyond `u128::MAX` is an
/// overflow.
pub open spec fn spec_power_millis(
    demand: Seq<char>,
    multiplier: Seq<char>,
    divisor: Seq<char>,
) -> Result<nat, DecodeError> {
    match spec_field(demand) {
        Err(e) => Err(e),
        Ok(d) => match spec_field(multiplier) {
            Err(e) => Err(e),
            Ok(m) => match spec_field(divisor) {
                Err(e) => Err(e),
                Ok(v) => if d * m * v > u128::MAX {
                    Err(DecodeError::Overflow)
                } else {
                    Ok(d * m * v)
                },
            },
        },
    }
}

impl EagleDemand {
    /// Decodes the reading into the power it represents. Pure: the result
    /// depends only on the `demand`, `multiplier` and `divisor` fields,
    /// used as named, never swapped.
    pub fn get_power(&self) -> (r: Result<PowerValue, DecodeError>)
        ensures
            r matches Ok(p) ==> spec_power_millis(self.demand@, self.multiplier@, self.divisor@)
                == Ok::<nat, DecodeError>(p.millis as nat),
            r matches Err(e) ==> spec_power_millis(self.demand@, self.multiplier@, self.divisor@)
                == Err::<nat, DecodeError>(e),
    {
        let d = match parse_field(self.demand.as_str()) {
            Ok(v) => v,
            Err(e) => {
                return Err(e);
            },
        };
        let m = match parse_field(self.multiplier.as_str()) {
            Ok(v) => v,
            Err(e) => {
                return Err(e);
            },
        };
        let v = match parse_field(self.divisor.as_str()) {
            Ok(v) => v,
            Err(e) => {
                return Err(e);
            },
        };
        proof {
            lemma_mul_upper_bound(d as int, max_field_value() as int, m as int,
                max_field_value() as int);
        }
        let dm = (d as u128) * (m as u128);
        match dm.checked_mul(v as u128) {
            Some(product) => Ok(PowerValue::from_millis(product)),
            None => Err(DecodeError::Overflow),
        }
    }
}

} // verus!
