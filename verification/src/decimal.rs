//! Fixed-point decimal rendering: a milli-unit count printed as a signed
//! decimal number with exactly three digits after the point.

use vstd::prelude::*;
use vstd::string::StringExecFns;

verus! {

/// The decimal digit character for `d` in 0..=9.
pub open spec fn digit_char(d: int) -> char {
    if d == 0 {
        '0'
    } else if d == 1 {
        '1'
    } else if d == 2 {
        '2'
    } else if d == 3 {
        '3'
    } else if d == 4 {
        '4'
    } else if d == 5 {
        '5'
    } else if d == 6 {
        '6'
    } else if d == 7 {
        '7'
    } else if d == 8 {
        '8'
    } else {
        '9'
    }
}

/// The decimal digits of `n`, most significant first; empty for `n <= 0`.
pub open spec fn dec_digits(n: int) -> Seq<char>
    decreases n,
{
    if n <= 0 {
        Seq::empty()
    } else {
        dec_digits(n / 10).push(digit_char(n % 10))
    }
}

/// The decimal spelling of a nonnegative `n`, with "0" for zero.
pub open spec fn dec_str(n: int) -> Seq<char> {
    if n == 0 {
        seq!['0']
    } else {
        dec_digits(n)
    }
}

/// Exactly three digits, zero padded: the spelling of `f` in 0..=999.
pub open spec fn pad3_str(f: int) -> Seq<char> {
    seq![digit_char(f / 100), digit_char((f / 10) % 10), digit_char(f % 10)]
}

/// A milli-unit count `v` spelled as a decimal number with three digits
/// after the point: an optional minus sign, the whole part, a point, and
/// the thousandths zero-padded to width three.
pub open spec fn milli_str(v: int) -> Seq<char> {
    let a = if v < 0 {
        -v
    } else {
        v
    };
    (if v < 0 {
        seq!['-']
    } else {
        Seq::<char>::empty()
    }) + dec_str(a / 1000) + seq!['.'] + pad3_str(a % 1000)
}

/// The one-character string for a digit in 0..=9.
fn digit_literal(d: u8) -> (r: &'static str)
    requires
        d < 10,
    ensures
        r@ == seq![digit_char(d as int)],
{
    if d == 0 {
        proof {
            reveal_strlit("0");
            assert("0"@ =~= seq![digit_char(d as int)]);
        }
        "0"
    } else if d == 1 {
        proof {
            reveal_strlit("1");
            assert("1"@ =~= seq![digit_char(d as int)]);
        }
        "1"
    } else if d == 2 {
        proof {
            reveal_strlit("2");
            assert("2"@ =~= seq![digit_char(d as int)]);
        }
        "2"
    } else if d == 3 {
        proof {
            reveal_strlit("3");
            assert("3"@ =~= seq![digit_char(d as int)]);
        }
        "3"
    } else if d == 4 {
        proof {
            reveal_strlit("4");
            assert("4"@ =~= seq![digit_char(d as int)]);
        }
        "4"
    } else if d == 5 {
        proof {
            reveal_strlit("5");
            assert("5"@ =~= seq![digit_char(d as int)]);
        }
        "5"
    } else if d == 6 {
        proof {
            reveal_strlit("6");
            assert("6"@ =~= seq![digit_char(d as int)]);
        }
        "6"
    } else if d == 7 {
        proof {
            reveal_strlit("7");
            assert("7"@ =~= seq![digit_char(d as int)]);
        }
        "7"
    } else if d == 8 {
        proof {
            reveal_strlit("8");
            assert("8"@ =~= seq![digit_char(d as int)]);
        }
        "8"
    } else {
        proof {
            reveal_strlit("9");
            assert("9"@ =~= seq![digit_char(d as int)]);
        }
        "9"
    }
}

/// The decimal digits of `n`, most significant first; the empty string
/// for zero.
fn dec_digits_string(n: u64) -> (r: String)
    ensures
        r@ == dec_digits(n as int),
    decreases n,
{
    if n == 0 {
        String::new()
    } else {
        let mut s = dec_digits_string(n / 10);
        let d = digit_literal((n % 10) as u8);
        s.append(d);
        proof {
            assert(s@ =~= dec_digits(n as int));
        }
        s
    }
}

/// The decimal spelling of `n`.
pub fn dec_string(n: u64) -> (r: String)
    ensures
        r@ == dec_str(n as int),
{
    if n == 0 {
        let r = "0".to_owned();
        proof {
            reveal_strlit("0");
            assert(r@ =~= dec_str(n as int));
        }
        r
    } else {
        dec_digits_string(n)
    }
}

/// Exactly three digits, zero padded.
fn pad3_string(f: u64) -> (r: String)
    requires
        f < 1000,
    ensures
        r@ == pad3_str(f as int),
{
    let mut s = digit_literal((f / 100) as u8).to_owned();
    s.append(digit_literal(((f / 10) % 10) as u8));
    s.append(digit_literal((f % 10) as u8));
    proof {
        assert(s@ =~= pad3_str(f as int));
    }
    s
}

/// A milli-unit count rendered as a signed decimal with three digits after
/// the point: 42000 gives "42.000", -41800 gives "-41.800", 12 gives
/// "0.012".
pub fn format_milli(v: i64) -> (r: String)
    requires
        i64::MIN < v,
    ensures
        r@ == milli_str(v as int),
{
    let neg = v < 0;
    let a: u64 = if v < 0 {
        (-v) as u64
    } else {
        v as u64
    };
    let whole = dec_string(a / 1000);
    let frac = pad3_string(a % 1000);
    let mut s = if neg {
        "-".to_owned()
    } else {
        String::new()
    };
    s.append(whole.as_str());
    s.append(".");
    s.append(frac.as_str());
    proof {
        reveal_strlit("-");
        reveal_strlit(".");
        assert(s@ =~= milli_str(v as int));
    }
    s
}

} // verus!
