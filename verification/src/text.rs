//! Decimal rendering of unsigned integers.

use vstd::prelude::*;
use vstd::string::StringExecFns;

verus! {

/// The character that stands for a single decimal digit.
pub open spec fn digit_char(d: nat) -> char {
    if d == 0 {
        '0'
    } else if d == 1 {
        '1'
    } else if d == 2 {
        '2'
    } else if d == 3 {
        '3'
    } else if d == 4 {
        '4'
    } else if d == 5 {
        '5'
    } else if d == 6 {
        '6'
    } else if d == 7 {
        '7'
    } else if d == 8 {
        '8'
    } else {
        '9'
    }
}

/// The decimal numeral of `n`, most significant digit first, without leading
/// zeros (zero itself is the single digit `0`).
pub open spec fn decimal(n: nat) -> Seq<char>
    decreases n,
{
    if n < 10 {
        seq![digit_char(n)]
    } else {
        decimal(n / 10).push(digit_char(n % 10))
    }
}

fn digit_str(d: u64) -> (r: &'static str)
    requires
        d < 10,
    ensures
        r@ == seq![digit_char(d as nat)],
{
    proof {
        reveal_strlit("0");
        reveal_strlit("1");
        reveal_strlit("2");
        reveal_strlit("3");
        reveal_strlit("4");
        reveal_strlit("5");
        reveal_strlit("6");
        reveal_strlit("7");
        reveal_strlit("8");
        reveal_strlit("9");
    }
    let r: &'static str = if d == 0 {
        "0"
    } else if d == 1 {
        "1"
    } else if d == 2 {
        "2"
    } else if d == 3 {
        "3"
    } else if d == 4 {
        "4"
    } else if d == 5 {
        "5"
    } else if d == 6 {
        "6"
    } else if d == 7 {
        "7"
    } else if d == 8 {
        "8"
    } else {
        "9"
    };
    assert(r@ =~= seq![digit_char(d as nat)]);
    r
}

/// Renders `n` as its decimal numeral.
pub fn decimal_string(n: u64) -> (r: String)
    ensures
        r@ == decimal(n as nat),
    decreases n,
{
    if n < 10 {
        String::from_str(digit_str(n))
    } else {
        let mut s = decimal_string(n / 10);
        s.append(digit_str(n % 10));
        assert(s@ =~= decimal((n / 10) as nat).push(digit_char((n % 10) as nat)));
        s
    }
}

/// The decimal numeral of `n`, with a leading zero where it has one digit.
pub open spec fn two_digits(n: nat) -> Seq<char> {
    if n < 10 {
        seq!['0'] + decimal(n)
    } else {
        decimal(n)
    }
}

/// A span of `seconds` as whole hours and minutes: `HH:MM`, with the hours
/// running on beyond two digits.
pub open spec fn duration_text(seconds: nat) -> Seq<char> {
    two_digits(seconds / 60 / 60) + seq![':'] + two_digits(seconds / 60 % 60)
}

fn two_digit_string(n: u64) -> (r: String)
    ensures
        r@ == two_digits(n as nat),
{
    if n < 10 {
        proof {
            reveal_strlit("0");
        }
        let mut r = String::from_str("0");
        let digits = decimal_string(n);
        r.append(digits.as_str());
        assert(r@ =~= seq!['0'] + decimal(n as nat));
        r
    } else {
        decimal_string(n)
    }
}

/// Renders a span of `seconds` as hours and minutes.
pub fn format_duration(seconds: u64) -> (r: String)
    ensures
        r@ == duration_text(seconds as nat),
{
    proof {
        reveal_strlit(":");
    }
    let minutes: u64 = (seconds / 60) % 60;
    let hours: u64 = (seconds / 60) / 60;
    let mut r = two_digit_string(hours);
    r.append(":");
    let m = two_digit_string(minutes);
    r.append(m.as_str());
    assert(r@ =~= two_digits(hours as nat) + seq![':'] + two_digits(minutes as nat));
    r
}

} // verus!
