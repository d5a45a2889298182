//! Text for the console: decimal numbers and durations in milliseconds.
use vstd::prelude::*;
use vstd::string::StringExecFns;

verus! {

/// The character of one decimal digit.
pub open spec fn digit_char(d: nat) -> char {
    if d == 0 {
        '0'
    } else if d == 1 {
        '1'
    } else if d == 2 {
        '2'
    } else if d == 3 {
        '3'
    } else if d == 4 {
        '4'
    } else if d == 5 {
        '5'
    } else if d == 6 {
        '6'
    } else if d == 7 {
        '7'
    } else if d == 8 {
        '8'
    } else {
        '9'
    }
}

/// The decimal numeral of `n`, without leading zeros.
pub open spec fn decimal_text(n: nat) -> Seq<char>
    decreases n,
{
    if n < 10 {
        seq![digit_char(n)]
    } else {
        decimal_text(n / 10).push(digit_char(n % 10))
    }
}

/// Exactly three decimal digits for a number below one thousand.
pub open spec fn three_digits(n: nat) -> Seq<char> {
    seq![digit_char(n / 100 % 10), digit_char(n / 10 % 10), digit_char(n % 10)]
}

/// A duration of `nanos` nanoseconds written in milliseconds with three
/// decimals, cut off below the microsecond: `12.345ms`.
pub open spec fn millis_text(nanos: nat) -> Seq<char> {
    decimal_text(nanos / 1_000_000) + seq!['.'] + three_digits(nanos / 1_000 % 1_000) + seq![
        'm',
        's',
    ]
}

/// The one-character text of a decimal digit.
pub fn digit_str(d: u8) -> (s: &'static str)
    requires
        d < 10,
    ensures
        s@ == seq![digit_char(d as nat)],
{
    proof {
        reveal_strlit("0");
        reveal_strlit("1");
        reveal_strlit("2");
        reveal_strlit("3");
        reveal_strlit("4");
        reveal_strlit("5");
        reveal_strlit("6");
        reveal_strlit("7");
        reveal_strlit("8");
        reveal_strlit("9");
    }
    let s = match d {
        0 => "0",
        1 => "1",
        2 => "2",
        3 => "3",
        4 => "4",
        5 => "5",
        6 => "6",
        7 => "7",
        8 => "8",
        _ => "9",
    };
    assert(s@ =~= seq![digit_char(d as nat)]);
    s
}

/// Appends the decimal numeral of `n` to `out`.
pub fn push_decimal(out: &mut String, n: u128)
    ensures
        final(out)@ == old(out)@ + decimal_text(n as nat),
    decreases n,
{
    if n >= 10 {
        push_decimal(out, n / 10);
    }
    out.append(digit_str((n % 10) as u8));
    assert(final(out)@ =~= old(out)@ + decimal_text(n as nat));
}

/// The decimal numeral of `n`.
pub fn decimal(n: u128) -> (s: String)
    ensures
        s@ == decimal_text(n as nat),
{
    let mut s = String::new();
    push_decimal(&mut s, n);
    assert(s@ =~= decimal_text(n as nat));
    s
}

/// Appends `nanos` nanoseconds, written in milliseconds, to `out`.
pub fn push_millis(out: &mut String, nanos: u128)
    ensures
        final(out)@ == old(out)@ + millis_text(nanos as nat),
{
    let micros: u128 = nanos / 1_000 % 1_000;
    push_decimal(out, nanos / 1_000_000);
    out.append(".");
    out.append(digit_str((micros / 100 % 10) as u8));
    out.append(digit_str((micros / 10 % 10) as u8));
    out.append(digit_str((micros % 10) as u8));
    out.append("ms");
    proof {
        reveal_strlit(".");
        reveal_strlit("ms");
        assert("."@ =~= seq!['.']);
        assert("ms"@ =~= seq!['m', 's']);
        assert(final(out)@ =~= old(out)@ + millis_text(nanos as nat));
    }
}

} // verus!
