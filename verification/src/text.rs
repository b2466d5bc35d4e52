use vstd::prelude::*;
use vstd::string::StringExecFns;

verus! {

/// The decimal digit character for `d`, which must lie in `0 ..= 9`.
pub open spec fn spec_digit(d: int) -> char {
    if d == 0 {
        '0'
    } else if d == 1 {
        '1'
    } else if d == 2 {
        '2'
    } else if d == 3 {
        '3'
    } else if d == 4 {
        '4'
    } else if d == 5 {
        '5'
    } else if d == 6 {
        '6'
    } else if d == 7 {
        '7'
    } else if d == 8 {
        '8'
    } else {
        '9'
    }
}

/// The decimal rendering of a non-negative integer, most significant digit
/// first, with no leading zeroes (except for the single digit of 0 itself).
pub open spec fn spec_decimal(n: int) -> Seq<char>
    decreases n,
{
    if n < 10 {
        seq![spec_digit(n)]
    } else {
        spec_decimal(n / 10).push(spec_digit(n % 10))
    }
}

/// The one-character string for a single decimal digit.
fn digit_str(d: u64) -> (r: &'static str)
    requires
        d < 10,
    ensures
        r@ == seq![spec_digit(d as int)],
{
    proof {
        reveal_strlit("0");
        reveal_strlit("1");
        reveal_strlit("2");
        reveal_strlit("3");
        reveal_strlit("4");
        reveal_strlit("5");
        reveal_strlit("6");
        reveal_strlit("7");
        reveal_strlit("8");
        reveal_strlit("9");
    }
    let r: &'static str = if d == 0 {
        "0"
    } else if d == 1 {
        "1"
    } else if d == 2 {
        "2"
    } else if d == 3 {
        "3"
    } else if d == 4 {
        "4"
    } else if d == 5 {
        "5"
    } else if d == 6 {
        "6"
    } else if d == 7 {
        "7"
    } else if d == 8 {
        "8"
    } else {
        "9"
    };
    proof {
        assert(r@ =~= seq![spec_digit(d as int)]);
    }
    r
}

/// Appends the decimal rendering of `n` to `s`.
pub fn append_decimal(s: &mut String, n: u64)
    ensures
        final(s)@ == old(s)@ + spec_decimal(n as int),
    decreases n,
{
    if n >= 10 {
        append_decimal(s, n / 10);
        let d = digit_str(n % 10);
        s.append(d);
        proof {
            assert(s@ =~= old(s)@ + spec_decimal(n as int));
        }
    } else {
        let d = digit_str(n);
        s.append(d);
        proof {
            assert(s@ =~= old(s)@ + spec_decimal(n as int));
        }
    }
}

/// Builds `prefix`, then the decimal rendering of `id`, then `suffix`.
pub fn msg_with_id(prefix: &str, id: u64, suffix: &str) -> (r: String)
    ensures
        r@ == prefix@ + spec_decimal(id as int) + suffix@,
{
    let mut s = prefix.to_owned();
    append_decimal(&mut s, id);
    s.append(suffix);
    proof {
        assert(s@ =~= prefix@ + spec_decimal(id as int) + suffix@);
    }
    s
}

/// Builds `prefix`, the decimal rendering of `a`, `mid`, and the decimal
/// rendering of `b`.
pub fn msg_two_amounts(prefix: &str, a: u32, mid: &str, b: u32) -> (r: String)
    ensures
        r@ == prefix@ + spec_decimal(a as int) + mid@ + spec_decimal(b as int),
{
    let mut s = prefix.to_owned();
    append_decimal(&mut s, a as u64);
    s.append(mid);
    append_decimal(&mut s, b as u64);
    proof {
        assert(s@ =~= prefix@ + spec_decimal(a as int) + mid@ + spec_decimal(b as int));
    }
    s
}

} // verus!
