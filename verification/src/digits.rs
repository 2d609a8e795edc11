//! Decimal rendering of season years for URL construction.
use vstd::prelude::*;
use vstd::string::StringExecFns;

verus! {

/// The decimal digit character for a value between 0 and 9.
pub open spec fn digit_char(d: int) -> char
    recommends
        0 <= d <= 9,
{
    if d == 0 {
        '0'
    } else if d == 1 {
        '1'
    } else if d == 2 {
        '2'
    } else if d == 3 {
        '3'
    } else if d == 4 {
        '4'
    } else if d == 5 {
        '5'
    } else if d == 6 {
        '6'
    } else if d == 7 {
        '7'
    } else if d == 8 {
        '8'
    } else {
        '9'
    }
}

/// The decimal digit sequence of a non-negative integer, most
/// significant digit first and without leading zeros.
pub open spec fn udec_chars(n: int) -> Seq<char>
    recommends
        n >= 0,
    decreases n,
{
    if n < 10 {
        seq![digit_char(n)]
    } else {
        udec_chars(n / 10) + seq![digit_char(n % 10)]
    }
}

/// The decimal rendering of an integer: its digit sequence, preceded by
/// a minus sign when it is negative.
pub open spec fn int_chars(n: int) -> Seq<char> {
    if n >= 0 {
        udec_chars(n)
    } else {
        seq!['-'] + udec_chars(-n)
    }
}

/// The one-character string for a decimal digit value.
fn digit_str(d: u32) -> (r: &'static str)
    requires
        d <= 9,
    ensures
        r@ == seq![digit_char(d as int)],
{
    proof {
        reveal_strlit("0");
        reveal_strlit("1");
        reveal_strlit("2");
        reveal_strlit("3");
        reveal_strlit("4");
        reveal_strlit("5");
        reveal_strlit("6");
        reveal_strlit("7");
        reveal_strlit("8");
        reveal_strlit("9");
    }
    let r = match d {
        0 => "0",
        1 => "1",
        2 => "2",
        3 => "3",
        4 => "4",
        5 => "5",
        6 => "6",
        7 => "7",
        8 => "8",
        _ => "9",
    };
    proof {
        assert(r@ =~= seq![digit_char(d as int)]);
    }
    r
}

/// Appends the decimal digits of a non-negative value to a string.
fn push_udec(s: &mut String, n: u32)
    ensures
        final(s)@ == old(s)@ + udec_chars(n as int),
    decreases n,
{
    if n >= 10 {
        push_udec(s, n / 10);
        s.append(digit_str(n % 10));
        proof {
            assert(final(s)@ =~= old(s)@ + udec_chars(n as int));
        }
    } else {
        s.append(digit_str(n));
    }
}

/// Renders an integer in decimal, as `format!` would.
pub fn int_to_string(n: i32) -> (s: String)
    ensures
        s@ == int_chars(n as int),
{
    let mut s = String::new();
    if n < 0 {
        proof {
            reveal_strlit("-");
        }
        s.append("-");
        proof {
            assert(s@ =~= seq!['-']);
        }
        let m: u32 = (-(n as i64)) as u32;
        push_udec(&mut s, m);
        proof {
            assert(s@ =~= int_chars(n as int));
        }
    } else {
        push_udec(&mut s, n as u32);
    }
    s
}

} // verus!
