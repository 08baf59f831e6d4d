//! Decimal text of unsigned integers, as a sequence of characters.

use vstd::prelude::*;
use vstd::string::*;

verus! {

/// The character that writes the digit `d`.
pub open spec fn digit_char(d: int) -> char {
    if d == 0 {
        '0'
    } else if d == 1 {
        '1'
    } else if d == 2 {
        '2'
    } else if d == 3 {
        '3'
    } else if d == 4 {
        '4'
    } else if d == 5 {
        '5'
    } else if d == 6 {
        '6'
    } else if d == 7 {
        '7'
    } else if d == 8 {
        '8'
    } else {
        '9'
    }
}

/// The decimal digits of `n`, most significant first, without leading zeros;
/// zero is written as one `0`.
pub open spec fn decimal_digits(n: nat) -> Seq<char>
    decreases n,
{
    if n < 10 {
        seq![digit_char(n as int)]
    } else {
        decimal_digits(n / 10).push(digit_char((n % 10) as int))
    }
}

/// The digits written so far, seen from a loop that peels digits off the
/// low end: what is still to be written, then what already stands.
spec fn digits_with_rest(rest: nat, written: Seq<char>) -> Seq<char> {
    if rest == 0 {
        written
    } else {
        decimal_digits(rest) + written
    }
}

fn digit_text(d: u8) -> (s: &'static str)
    requires
        d < 10,
    ensures
        s@ == seq![digit_char(d as int)],
{
    proof {
        reveal_strlit("0");
        reveal_strlit("1");
        reveal_strlit("2");
        reveal_strlit("3");
        reveal_strlit("4");
        reveal_strlit("5");
        reveal_strlit("6");
        reveal_strlit("7");
        reveal_strlit("8");
        reveal_strlit("9");
    }
    let s = if d == 0 {
        "0"
    } else if d == 1 {
        "1"
    } else if d == 2 {
        "2"
    } else if d == 3 {
        "3"
    } else if d == 4 {
        "4"
    } else if d == 5 {
        "5"
    } else if d == 6 {
        "6"
    } else if d == 7 {
        "7"
    } else if d == 8 {
        "8"
    } else {
        "9"
    };
    assert(s@ =~= seq![digit_char(d as int)]);
    s
}

/// Writes `n` in decimal.
pub fn decimal_text(n: u128) -> (s: String)
    ensures
        s@ == decimal_digits(n as nat),
{
    let mut s = String::from_str(digit_text((n % 10) as u8));
    let mut rest: u128 = n / 10;
    assert(digits_with_rest(rest as nat, s@) =~= decimal_digits(n as nat));
    while rest > 0
        invariant
            digits_with_rest(rest as nat, s@) == decimal_digits(n as nat),
        decreases rest,
    {
        let head = String::from_str(digit_text((rest % 10) as u8));
        let ghost before = s@;
        s = head.concat(s.as_str());
        proof {
            let next = (rest / 10) as nat;
            assert(digits_with_rest(next, s@) =~= digits_with_rest(rest as nat, before));
        }
        rest = rest / 10;
    }
    s
}

} // verus!
