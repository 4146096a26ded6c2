use vstd::prelude::*;
use vstd::string::StringExecFns;

verus! {

/// The character for one decimal digit.
pub open spec fn spec_digit_char(d: nat) -> char {
    if d == 0 {
        '0'
    } else if d == 1 {
        '1'
    } else if d == 2 {
        '2'
    } else if d == 3 {
        '3'
    } else if d == 4 {
        '4'
    } else if d == 5 {
        '5'
    } else if d == 6 {
        '6'
    } else if d == 7 {
        '7'
    } else if d == 8 {
        '8'
    } else {
        '9'
    }
}

/// The usual decimal rendering of a natural number: no sign, no leading
/// zeros (except for the number zero itself).
pub open spec fn spec_nat_decimal(n: nat) -> Seq<char>
    decreases n,
{
    if n < 10 {
        seq![spec_digit_char(n)]
    } else {
        spec_nat_decimal(n / 10).push(spec_digit_char(n % 10))
    }
}

/// The usual decimal rendering of an integer: a `-` sign in front of the
/// magnitude when the number is negative.
pub open spec fn spec_int_decimal(i: int) -> Seq<char> {
    if i < 0 {
        seq!['-'] + spec_nat_decimal((-i) as nat)
    } else {
        spec_nat_decimal(i as nat)
    }
}

/// Appends the decimal rendering of one digit to `out`.
fn push_digit(out: &mut String, d: u32)
    requires
        d < 10,
    ensures
        final(out)@ == old(out)@.push(spec_digit_char(d as nat)),
{
    let s: &str = if d == 0 {
        "0"
    } else if d == 1 {
        "1"
    } else if d == 2 {
        "2"
    } else if d == 3 {
        "3"
    } else if d == 4 {
        "4"
    } else if d == 5 {
        "5"
    } else if d == 6 {
        "6"
    } else if d == 7 {
        "7"
    } else if d == 8 {
        "8"
    } else {
        "9"
    };
    proof {
        reveal_strlit("0");
        reveal_strlit("1");
        reveal_strlit("2");
        reveal_strlit("3");
        reveal_strlit("4");
        reveal_strlit("5");
        reveal_strlit("6");
        reveal_strlit("7");
        reveal_strlit("8");
        reveal_strlit("9");
        assert(s@ =~= seq![spec_digit_char(d as nat)]);
    }
    out.append(s);
    proof {
        assert(out@ =~= old(out)@.push(spec_digit_char(d as nat)));
    }
}

/// Appends the decimal rendering of `n` to `out`.
pub fn push_u32_decimal(out: &mut String, n: u32)
    ensures
        final(out)@ == old(out)@ + spec_nat_decimal(n as nat),
    decreases n,
{
    if n >= 10 {
        push_u32_decimal(out, n / 10);
    }
    push_digit(out, n % 10);
    proof {
        assert(out@ =~= old(out)@ + spec_nat_decimal(n as nat));
    }
}

/// Appends the decimal rendering of `i`, sign included, to `out`.
pub fn push_i32_decimal(out: &mut String, i: i32)
    ensures
        final(out)@ == old(out)@ + spec_int_decimal(i as int),
{
    if i < 0 {
        proof {
            reveal_strlit("-");
            assert("-"@ =~= seq!['-']);
        }
        out.append("-");
        let wide: i64 = -(i as i64);
        assert(0 < wide <= 0x8000_0000);
        let m: u32 = wide as u32;
        push_u32_decimal(out, m);
        proof {
            assert(out@ =~= old(out)@ + spec_int_decimal(i as int));
        }
    } else {
        push_u32_decimal(out, i as u32);
    }
}

} // verus!
