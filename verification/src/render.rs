use vstd::prelude::*;

use crate::power::PowerValue;

verus! {

/// The character for one decimal digit.
pub open spec fn digit_char(d: nat) -> char {
    if d == 0 {
        '0'
    } else if d == 1 {
        '1'
    } else if d == 2 {
        '2'
    } else if d == 3 {
        '3'
    } else if d == 4 {
        '4'
    } else if d == 5 {
        '5'
    } else if d == 6 {
        '6'
    } else if d == 7 {
        '7'
    } else if d == 8 {
        '8'
    } else {
        '9'
    }
}

/// The decimal digits of `n`, most significant first, with no leading
/// zeros (zero itself renders as one `'0'`).
pub open spec fn dec_digits(n: nat) -> Seq<char>
    decreases n,
{
    if n < 10 {
        seq![digit_char(n)]
    } else {
        dec_digits(n / 10) + seq![digit_char(n % 10)]
    }
}

/// The digits after the decimal point for a fractional part of `f`
/// thousandths, `0 < f < 1000`: three digits, zero-padded on the left,
/// with trailing zeros dropped.
pub open spec fn frac_digits(f: nat) -> Seq<char> {
    if f % 10 != 0 {
        seq![digit_char(f / 100), digit_char((f / 10) % 10), digit_char(f % 10)]
    } else if f % 100 != 0 {
        seq![digit_char(f / 100), digit_char((f / 10) % 10)]
    } else {
        seq![digit_char(f / 100)]
    }
}

/// A power of `millis` thousandths of a watt in decimal: the whole watts,
/// then, when the fractional part is not zero, a point and the fraction's
/// digits with trailing zeros dropped. So 900 renders as `0.9`, 20000 as
/// `20` and 123400 as `123.4`.
pub open spec fn power_text(millis: nat) -> Seq<char> {
    if millis % 1000 == 0 {
        dec_digits(millis / 1000)
    } else {
        dec_digits(millis / 1000) + seq!['.'] + frac_digits(millis % 1000)
    }
}

/// The string slice for one decimal digit.
fn digit_str(d: u8) -> (s: &'static str)
    requires
        d < 10,
    ensures
        s@ =~= seq![digit_char(d as nat)],
{
    proof {
        reveal_strlit("0");
        reveal_strlit("1");
        reveal_strlit("2");
        reveal_strlit("3");
        reveal_strlit("4");
        reveal_strlit("5");
        reveal_strlit("6");
        reveal_strlit("7");
        reveal_strlit("8");
        reveal_strlit("9");
    }
    if d == 0 {
        "0"
    } else if d == 1 {
        "1"
    } else if d == 2 {
        "2"
    } else if d == 3 {
        "3"
    } else if d == 4 {
        "4"
    } else if d == 5 {
        "5"
    } else if d == 6 {
        "6"
    } else if d == 7 {
        "7"
    } else if d == 8 {
        "8"
    } else {
        "9"
    }
}

/// Renders `n` in decimal.
pub fn dec_string(n: u128) -> (s: String)
    ensures
        s@ == dec_digits(n as nat),
    decreases n,
{
    if n < 10 {
        String::from_str(digit_str(n as u8))
    } else {
        let mut s = dec_string(n / 10);
        s.append(digit_str((n % 10) as u8));
        s
    }
}

/// Renders a power value in decimal watts.
pub fn render_power(p: PowerValue) -> (s: String)
    ensures
        s@ == power_text(p.millis as nat),
{
    let frac = p.millis % 1000;
    let mut s = dec_string(p.millis / 1000);
    if frac != 0 {
        proof {
            reveal_strlit(".");
        }
        s.append(".");
        if frac % 10 != 0 {
            s.append(digit_str((frac / 100) as u8));
            s.append(digit_str(((frac / 10) % 10) as u8));
            s.append(digit_str((frac % 10) as u8));
        } else if frac % 100 != 0 {
            s.append(digit_str((frac / 100) as u8));
            s.append(digit_str(((frac / 10) % 10) as u8));
        } else {
            s.append(digit_str((frac / 100) as u8));
        }
        proof {
            assert(s@ =~= power_text(p.millis as nat));
        }
    }
    s
}

/// The exposition document for the gauge: its HELP and TYPE comment lines
/// always, and the sample line only once a value has been published — a
/// registry that has not seen a value renders with the sample line absent.
pub open spec fn exposition_text(snapshot: Option<PowerValue>) -> Seq<char> {
    let header = "# HELP instantaneous_power Instantaneous electricity usage.\n"@
        + "# TYPE instantaneous_power gauge\n"@;
    match snapshot {
        None => header,
        Some(p) => header + "instantaneous_power{handler=\"all\"} "@ + power_text(p.millis as nat)
            + "\n"@,
    }
}

/// Renders a registry snapshot in the text exposition format.
pub fn render_exposition(snapshot: Option<PowerValue>) -> (s: String)
    ensures
        s@ == exposition_text(snapshot),
{
    let mut s = String::from_str("# HELP instantaneous_power Instantaneous electricity usage.\n");
    s.append("# TYPE instantaneous_power gauge\n");
    match snapshot {
        None => {},
        Some(p) => {
            s.append("instantaneous_power{handler=\"all\"} ");
            let value = render_power(p);
            s.append(value.as_str());
            s.append("\n");
        },
    }
    proof {
        assert(s@ =~= exposition_text(snapshot));
    }
    s
}

} // verus!
