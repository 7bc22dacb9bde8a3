//! Decimal rendering of integers, with zero-padded forms for calendar fields.

use vstd::prelude::*;

verus! {

/// The character for one decimal digit.
pub open spec fn dec_digit(d: int) -> char {
    if d == 0 {
        '0'
    } else if d == 1 {
        '1'
    } else if d == 2 {
        '2'
    } else if d == 3 {
        '3'
    } else if d == 4 {
        '4'
    } else if d == 5 {
        '5'
    } else if d == 6 {
        '6'
    } else if d == 7 {
        '7'
    } else if d == 8 {
        '8'
    } else {
        '9'
    }
}

/// Canonical decimal text of a non-negative integer: no grouping separators,
/// no forced sign, no leading zeros.
pub open spec fn dec_of(n: int) -> Seq<char>
    decreases n,
{
    if n < 10 {
        seq![dec_digit(n)]
    } else {
        dec_of(n / 10) + seq![dec_digit(n % 10)]
    }
}

/// Canonical decimal text of a signed integer: a leading minus for negatives.
pub open spec fn dec_signed_of(n: int) -> Seq<char> {
    if n < 0 {
        seq!['-'] + dec_of(-n)
    } else {
        dec_of(n)
    }
}

/// One decimal digit as a borrowed one-character string.
fn digit_str(d: u64) -> (r: &'static str)
    requires
        d < 10,
    ensures
        r@ == seq![dec_digit(d as int)],
{
    let r = if d == 0 {
        "0"
    } else if d == 1 {
        "1"
    } else if d == 2 {
        "2"
    } else if d == 3 {
        "3"
    } else if d == 4 {
        "4"
    } else if d == 5 {
        "5"
    } else if d == 6 {
        "6"
    } else if d == 7 {
        "7"
    } else if d == 8 {
        "8"
    } else {
        "9"
    };
    proof {
        reveal_strlit("0");
        reveal_strlit("1");
        reveal_strlit("2");
        reveal_strlit("3");
        reveal_strlit("4");
        reveal_strlit("5");
        reveal_strlit("6");
        reveal_strlit("7");
        reveal_strlit("8");
        reveal_strlit("9");
        assert(r@ =~= seq![dec_digit(d as int)]);
    }
    r
}

/// Appends the decimal text of `n` to `out`.
pub fn push_dec_u64(out: &mut String, n: u64)
    ensures
        final(out)@ == old(out)@ + dec_of(n as int),
    decreases n,
{
    if n < 10 {
        out.append(digit_str(n));
    } else {
        proof {
            assert(n / 10 < n) by (nonlinear_arith)
                requires
                    n >= 10,
            ;
        }
        push_dec_u64(out, n / 10);
        out.append(digit_str(n % 10));
        proof {
            assert(out@ =~= old(out)@ + dec_of(n as int));
        }
    }
}

/// The decimal text of `n` as a fresh string.
pub fn fmt_u64(n: u64) -> (r: String)
    ensures
        r@ == dec_of(n as int),
{
    let mut s = String::new();
    push_dec_u64(&mut s, n);
    proof {
        assert(s@ =~= dec_of(n as int));
    }
    s
}

/// Appends the decimal text of a signed value, with a minus sign when negative.
pub fn push_dec_i64(out: &mut String, n: i64)
    ensures
        final(out)@ == old(out)@ + dec_signed_of(n as int),
{
    if n < 0 {
        out.append("-");
        let mag: u64 = if n == i64::MIN {
            9223372036854775808u64
        } else {
            (-n) as u64
        };
        push_dec_u64(out, mag);
        proof {
            reveal_strlit("-");
            assert(out@ =~= old(out)@ + dec_signed_of(n as int));
        }
    } else {
        push_dec_u64(out, n as u64);
    }
}

/// Zero-padded two-digit decimal text; wider values keep their full text.
pub open spec fn pad2_of(n: int) -> Seq<char> {
    if n < 10 {
        seq!['0'] + dec_of(n)
    } else {
        dec_of(n)
    }
}

/// Zero-padded three-digit decimal text.
pub open spec fn pad3_of(n: int) -> Seq<char> {
    if n < 10 {
        seq!['0', '0'] + dec_of(n)
    } else if n < 100 {
        seq!['0'] + dec_of(n)
    } else {
        dec_of(n)
    }
}

/// Zero-padded four-digit decimal text.
pub open spec fn pad4_of(n: int) -> Seq<char> {
    if n < 10 {
        seq!['0', '0', '0'] + dec_of(n)
    } else if n < 100 {
        seq!['0', '0'] + dec_of(n)
    } else if n < 1000 {
        seq!['0'] + dec_of(n)
    } else {
        dec_of(n)
    }
}

/// Zero-padded six-digit decimal text.
pub open spec fn pad6_of(n: int) -> Seq<char> {
    if n < 1000 {
        seq!['0', '0', '0'] + pad3_of(n)
    } else {
        pad3_of(n / 1000) + pad3_of(n % 1000)
    }
}

/// Zero-padded nine-digit decimal text.
pub open spec fn pad9_of(n: int) -> Seq<char> {
    if n < 1000000 {
        seq!['0', '0', '0'] + pad6_of(n)
    } else {
        pad3_of(n / 1000000) + pad6_of(n % 1000000)
    }
}

/// Appends the two-digit zero-padded text of `n`.
pub fn push_pad2(out: &mut String, n: u64)
    ensures
        final(out)@ == old(out)@ + pad2_of(n as int),
{
    if n < 10 {
        out.append("0");
        push_dec_u64(out, n);
        proof {
            reveal_strlit("0");
            assert(out@ =~= old(out)@ + pad2_of(n as int));
        }
    } else {
        push_dec_u64(out, n);
    }
}

/// Appends the three-digit zero-padded text of `n`.
pub fn push_pad3(out: &mut String, n: u64)
    ensures
        final(out)@ == old(out)@ + pad3_of(n as int),
{
    if n < 10 {
        out.append("00");
        push_dec_u64(out, n);
        proof {
            reveal_strlit("00");
            assert(out@ =~= old(out)@ + pad3_of(n as int));
        }
    } else if n < 100 {
        out.append("0");
        push_dec_u64(out, n);
        proof {
            reveal_strlit("0");
            assert(out@ =~= old(out)@ + pad3_of(n as int));
        }
    } else {
        push_dec_u64(out, n);
    }
}

/// Appends the four-digit zero-padded text of `n`.
pub fn push_pad4(out: &mut String, n: u64)
    ensures
        final(out)@ == old(out)@ + pad4_of(n as int),
{
    if n < 10 {
        out.append("000");
        push_dec_u64(out, n);
        proof {
            reveal_strlit("000");
            assert(out@ =~= old(out)@ + pad4_of(n as int));
        }
    } else if n < 100 {
        out.append("00");
        push_dec_u64(out, n);
        proof {
            reveal_strlit("00");
            assert(out@ =~= old(out)@ + pad4_of(n as int));
        }
    } else if n < 1000 {
        out.append("0");
        push_dec_u64(out, n);
        proof {
            reveal_strlit("0");
            assert(out@ =~= old(out)@ + pad4_of(n as int));
        }
    } else {
        push_dec_u64(out, n);
    }
}

/// Appends the six-digit zero-padded text of `n`.
pub fn push_pad6(out: &mut String, n: u64)
    ensures
        final(out)@ == old(out)@ + pad6_of(n as int),
{
    if n < 1000 {
        out.append("000");
        push_pad3(out, n);
        proof {
            reveal_strlit("000");
            assert(out@ =~= old(out)@ + pad6_of(n as int));
        }
    } else {
        push_pad3(out, n / 1000);
        push_pad3(out, n % 1000);
        proof {
            assert(out@ =~= old(out)@ + pad6_of(n as int));
        }
    }
}

/// Appends the nine-digit zero-padded text of `n`.
pub fn push_pad9(out: &mut String, n: u64)
    ensures
        final(out)@ == old(out)@ + pad9_of(n as int),
{
    if n < 1000000 {
        out.append("000");
        push_pad6(out, n);
        proof {
            reveal_strlit("000");
            assert(out@ =~= old(out)@ + pad9_of(n as int));
        }
    } else {
        push_pad3(out, n / 1000000);
        push_pad6(out, n % 1000000);
        proof {
            assert(out@ =~= old(out)@ + pad9_of(n as int));
        }
    }
}

} // verus!
