//! Decimal rendering of integers, used to spell out the command a machine
//! rejected (for example `Feed(200)`) inside an `InvalidTransition` response.

use vstd::prelude::*;

verus! {

/// The decimal digit character for a value below ten.
pub open spec fn dec_digit(d: nat) -> char
    recommends
        d < 10,
{
    if d == 0 {
        '0'
    } else if d == 1 {
        '1'
    } else if d == 2 {
        '2'
    } else if d == 3 {
        '3'
    } else if d == 4 {
        '4'
    } else if d == 5 {
        '5'
    } else if d == 6 {
        '6'
    } else if d == 7 {
        '7'
    } else if d == 8 {
        '8'
    } else {
        '9'
    }
}

/// The decimal digits of a natural number, most significant first,
/// without leading zeros (zero itself is rendered as "0").
pub open spec fn dec_nat(n: nat) -> Seq<char>
    decreases n,
{
    if n < 10 {
        seq![dec_digit(n)]
    } else {
        dec_nat(n / 10).push(dec_digit(n % 10))
    }
}

/// The decimal rendering of an integer: a minus sign before the digits
/// of the magnitude when the value is negative.
pub open spec fn dec_int(n: int) -> Seq<char> {
    if n < 0 {
        seq!['-'] + dec_nat((-n) as nat)
    } else {
        dec_nat(n as nat)
    }
}

/// Appends the single digit character for `d` to `s`.
fn push_dec_digit(s: &mut String, d: u32)
    requires
        d < 10,
    ensures
        final(s)@ == old(s)@ + seq![dec_digit(d as nat)],
{
    let ghost pre = s@;
    if d == 0 {
        s.append("0");
        proof {
            reveal_strlit("0");
            assert(final(s)@ =~= pre + seq![dec_digit(d as nat)]);
        }
    } else if d == 1 {
        s.append("1");
        proof {
            reveal_strlit("1");
            assert(final(s)@ =~= pre + seq![dec_digit(d as nat)]);
        }
    } else if d == 2 {
        s.append("2");
        proof {
            reveal_strlit("2");
            assert(final(s)@ =~= pre + seq![dec_digit(d as nat)]);
        }
    } else if d == 3 {
        s.append("3");
        proof {
            reveal_strlit("3");
            assert(final(s)@ =~= pre + seq![dec_digit(d as nat)]);
        }
    } else if d == 4 {
        s.append("4");
        proof {
            reveal_strlit("4");
            assert(final(s)@ =~= pre + seq![dec_digit(d as nat)]);
        }
    } else if d == 5 {
        s.append("5");
        proof {
            reveal_strlit("5");
            assert(final(s)@ =~= pre + seq![dec_digit(d as nat)]);
        }
    } else if d == 6 {
        s.append("6");
        proof {
            reveal_strlit("6");
            assert(final(s)@ =~= pre + seq![dec_digit(d as nat)]);
        }
    } else if d == 7 {
        s.append("7");
        proof {
            reveal_strlit("7");
            assert(final(s)@ =~= pre + seq![dec_digit(d as nat)]);
        }
    } else if d == 8 {
        s.append("8");
        proof {
            reveal_strlit("8");
            assert(final(s)@ =~= pre + seq![dec_digit(d as nat)]);
        }
    } else {
        s.append("9");
        proof {
            reveal_strlit("9");
            assert(final(s)@ =~= pre + seq![dec_digit(d as nat)]);
        }
    }
}

/// Appends the decimal digits of `n` to `s`, most significant first.
pub fn push_dec_u32(s: &mut String, n: u32)
    ensures
        final(s)@ == old(s)@ + dec_nat(n as nat),
    decreases n,
{
    let ghost pre = s@;
    if n >= 10 {
        push_dec_u32(s, n / 10);
    }
    push_dec_digit(s, n % 10);
    proof {
        if n < 10 {
            assert(final(s)@ =~= pre + dec_nat(n as nat));
        } else {
            assert(final(s)@ =~= pre + dec_nat(n as nat));
        }
    }
}

/// Renders an unsigned value in decimal.
pub fn u32_to_decimal(n: u32) -> (s: String)
    ensures
        s@ == dec_nat(n as nat),
{
    let mut s = String::new();
    push_dec_u32(&mut s, n);
    proof {
        assert(s@ =~= dec_nat(n as nat));
    }
    s
}

/// Renders a signed value in decimal, with a leading minus sign when negative.
pub fn i32_to_decimal(n: i32) -> (s: String)
    ensures
        s@ == dec_int(n as int),
{
    let mut s = String::new();
    if n < 0 {
        s.append("-");
        let mag: u32 = (-(n as i64)) as u32;
        push_dec_u32(&mut s, mag);
        proof {
            reveal_strlit("-");
            assert(mag as nat == (-(n as int)) as nat);
            assert(s@ =~= dec_int(n as int));
        }
    } else {
        push_dec_u32(&mut s, n as u32);
        proof {
            assert(s@ =~= dec_int(n as int));
        }
    }
    s
}

} // verus!
