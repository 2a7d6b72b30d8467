use vstd::prelude::*;

verus! {

/// The ASCII character of a decimal digit.
pub open spec fn digit_char(d: int) -> char {
    if d == 0 {
        '0'
    } else if d == 1 {
        '1'
    } else if d == 2 {
        '2'
    } else if d == 3 {
        '3'
    } else if d == 4 {
        '4'
    } else if d == 5 {
        '5'
    } else if d == 6 {
        '6'
    } else if d == 7 {
        '7'
    } else if d == 8 {
        '8'
    } else {
        '9'
    }
}

/// The decimal digits of a natural number, without leading zeros.
pub open spec fn decimal(n: nat) -> Seq<char>
    decreases n,
{
    if n < 10 {
        seq![digit_char(n as int)]
    } else {
        decimal(n / 10).push(digit_char((n % 10) as int))
    }
}

/// An integer as `{}` prints it: a minus sign, then the digits of its magnitude.
pub open spec fn int_text(i: int) -> Seq<char> {
    if i < 0 {
        seq!['-'] + decimal((-i) as nat)
    } else {
        decimal(i as nat)
    }
}

/// A natural number as `{:02}` prints it: at least two digits, zero-padded.
pub open spec fn two_digit_text(n: nat) -> Seq<char> {
    if n < 10 {
        seq!['0'] + decimal(n)
    } else {
        decimal(n)
    }
}

fn digit_str(d: u64) -> (r: &'static str)
    requires
        d < 10,
    ensures
        r@ == seq![digit_char(d as int)],
{
    if d == 0 {
        proof { reveal_strlit("0"); }
        "0"
    } else if d == 1 {
        proof { reveal_strlit("1"); }
        "1"
    } else if d == 2 {
        proof { reveal_strlit("2"); }
        "2"
    } else if d == 3 {
        proof { reveal_strlit("3"); }
        "3"
    } else if d == 4 {
        proof { reveal_strlit("4"); }
        "4"
    } else if d == 5 {
        proof { reveal_strlit("5"); }
        "5"
    } else if d == 6 {
        proof { reveal_strlit("6"); }
        "6"
    } else if d == 7 {
        proof { reveal_strlit("7"); }
        "7"
    } else if d == 8 {
        proof { reveal_strlit("8"); }
        "8"
    } else {
        proof { reveal_strlit("9"); }
        "9"
    }
}

/// Appends the decimal digits of `n`.
pub fn push_decimal(s: &mut String, n: u64)
    ensures
        final(s)@ == old(s)@ + decimal(n as nat),
    decreases n,
{
    if n >= 10 {
        push_decimal(s, n / 10);
    }
    s.append(digit_str(n % 10));
    proof {
        assert(final(s)@ =~= old(s)@ + decimal(n as nat));
    }
}

/// Appends an integer as `{}` prints it.
pub fn push_int(s: &mut String, i: i32)
    ensures
        final(s)@ == old(s)@ + int_text(i as int),
{
    if i < 0 {
        proof { reveal_strlit("-"); }
        s.append("-");
        let magnitude: u64 = (-(i as i64)) as u64;
        push_decimal(s, magnitude);
        proof {
            assert(final(s)@ =~= old(s)@ + int_text(i as int));
        }
    } else {
        push_decimal(s, i as u64);
    }
}

/// Appends a natural number as `{:02}` prints it.
pub fn push_two_digits(s: &mut String, n: u32)
    ensures
        final(s)@ == old(s)@ + two_digit_text(n as nat),
{
    if n < 10 {
        proof { reveal_strlit("0"); }
        s.append("0");
        push_decimal(s, n as u64);
        proof {
            assert(final(s)@ =~= old(s)@ + two_digit_text(n as nat));
        }
    } else {
        push_decimal(s, n as u64);
    }
}

} // verus!
