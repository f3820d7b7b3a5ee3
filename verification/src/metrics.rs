//! Single-line records for a measurement harness.

use vstd::prelude::*;
use vstd::string::StringExecFns;

verus! {

/// The character for the decimal digit `digit`.
pub open spec fn digit_char(digit: nat) -> char {
    if digit == 0 {
        '0'
    } else if digit == 1 {
        '1'
    } else if digit == 2 {
        '2'
    } else if digit == 3 {
        '3'
    } else if digit == 4 {
        '4'
    } else if digit == 5 {
        '5'
    } else if digit == 6 {
        '6'
    } else if digit == 7 {
        '7'
    } else if digit == 8 {
        '8'
    } else {
        '9'
    }
}

/// `value` written in decimal, without sign or leading zeros.
pub open spec fn decimal(value: nat) -> Seq<char>
    decreases value,
{
    if value < 10 {
        seq![digit_char(value)]
    } else {
        decimal(value / 10).push(digit_char(value % 10))
    }
}

/// The record for one measurement: the word `METRIC`, then the name, the
/// value in decimal and the unit, each after a colon.
pub open spec fn metric_text(metric: Seq<char>, value: nat, unit: Seq<char>) -> Seq<char> {
    "METRIC:"@ + metric + ":"@ + decimal(value) + ":"@ + unit
}

fn digit_str(digit: u64) -> (out: &'static str)
    requires
        digit < 10,
    ensures
        out@ == seq![digit_char(digit as nat)],
{
    proof {
        reveal_strlit("0");
        reveal_strlit("1");
        reveal_strlit("2");
        reveal_strlit("3");
        reveal_strlit("4");
        reveal_strlit("5");
        reveal_strlit("6");
        reveal_strlit("7");
        reveal_strlit("8");
        reveal_strlit("9");
    }
    let out = if digit == 0 {
        "0"
    } else if digit == 1 {
        "1"
    } else if digit == 2 {
        "2"
    } else if digit == 3 {
        "3"
    } else if digit == 4 {
        "4"
    } else if digit == 5 {
        "5"
    } else if digit == 6 {
        "6"
    } else if digit == 7 {
        "7"
    } else if digit == 8 {
        "8"
    } else {
        "9"
    };
    assert(out@ =~= seq![digit_char(digit as nat)]);
    out
}

/// Appends `value` in decimal to `line`.
pub fn push_decimal(line: &mut String, value: u64)
    ensures
        final(line)@ == old(line)@ + decimal(value as nat),
    decreases value,
{
    if value >= 10 {
        push_decimal(line, value / 10);
    }
    line.append(digit_str(value % 10));
    assert(line@ =~= old(line)@ + decimal(value as nat));
}

/// The record for one measurement.
pub fn metric_line(metric: &str, value: u64, unit: &str) -> (out: String)
    ensures
        out@ == metric_text(metric@, value as nat, unit@),
{
    let mut line = String::from_str("METRIC:");
    line.append(metric);
    line.append(":");
    push_decimal(&mut line, value);
    line.append(":");
    line.append(unit);
    assert(line@ =~= metric_text(metric@, value as nat, unit@));
    line
}

/// The record to emit for a measurement: none while reporting is switched
/// off, the measurement's line while it is on.
pub fn report_metric(enabled: bool, metric: &str, value: u64, unit: &str) -> (out: Option<String>)
    ensures
        !enabled ==> out is None,
        enabled ==> out is Some && out.unwrap()@ == metric_text(metric@, value as nat, unit@),
{
    if !enabled {
        return None;
    }
    Some(metric_line(metric, value, unit))
}

} // verus!
