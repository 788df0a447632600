//! Verified plain-text formatting of numbers.
//!
//! Decimal rendering of unsigned integers and of fixed-point values with a
//! fixed number of decimals, plus left-padding — everything the dashboard
//! text needs, with each function equal to its spec-level mirror.

use vstd::prelude::*;
use vstd::string::StringExecFns;
use crate::fixed::{Fix, iabs};

verus! {

/// The decimal digit character for one digit value.
pub open spec fn digit_char_s(d: int) -> char {
    if d == 0 {
        '0'
    } else if d == 1 {
        '1'
    } else if d == 2 {
        '2'
    } else if d == 3 {
        '3'
    } else if d == 4 {
        '4'
    } else if d == 5 {
        '5'
    } else if d == 6 {
        '6'
    } else if d == 7 {
        '7'
    } else if d == 8 {
        '8'
    } else {
        '9'
    }
}

/// The decimal digits of a nonnegative integer, most significant first.
pub open spec fn digits_s(n: int) -> Seq<char>
    decreases n,
{
    if n < 10 {
        seq![digit_char_s(n)]
    } else {
        digits_s(n / 10).push(digit_char_s(n % 10))
    }
}

/// A run of one repeated character.
pub open spec fn repeat_s(c: char, n: nat) -> Seq<char>
    decreases n,
{
    if n == 0 {
        Seq::empty()
    } else {
        seq![c] + repeat_s(c, (n - 1) as nat)
    }
}

/// A character sequence left-padded with spaces to a width.
pub open spec fn pad_left_s(cs: Seq<char>, w: nat) -> Seq<char> {
    if cs.len() >= w {
        cs
    } else {
        repeat_s(' ', (w - cs.len()) as nat) + cs
    }
}

/// A fixed-point value rendered with `decimals` decimal places, rounded
/// half away from zero: the sign, the whole part, a point, the fraction.
pub open spec fn fix_str_s(v: int, decimals: nat) -> Seq<char> {
    let unit = if decimals == 0 {
        1_000_000int
    } else if decimals == 1 {
        100_000int
    } else {
        10_000int
    };
    let scaled = (iabs(v) + unit / 2) / unit;
    let sign: Seq<char> = if v < 0 {
        seq!['-']
    } else {
        Seq::empty()
    };
    if decimals == 0 {
        sign + digits_s(scaled)
    } else if decimals == 1 {
        sign + digits_s(scaled / 10) + seq!['.'] + seq![digit_char_s(scaled % 10)]
    } else {
        sign + digits_s(scaled / 100) + seq!['.'] + seq![digit_char_s((scaled / 10) % 10)]
            + seq![digit_char_s(scaled % 10)]
    }
}

/// The one-character string for a digit value.
fn digit_str(d: u64) -> (r: &'static str)
    requires
        d < 10,
    ensures
        r@ == seq![digit_char_s(d as int)],
{
    let r: &'static str = if d == 0 {
        "0"
    } else if d == 1 {
        "1"
    } else if d == 2 {
        "2"
    } else if d == 3 {
        "3"
    } else if d == 4 {
        "4"
    } else if d == 5 {
        "5"
    } else if d == 6 {
        "6"
    } else if d == 7 {
        "7"
    } else if d == 8 {
        "8"
    } else {
        "9"
    };
    proof {
        reveal_strlit("0");
        reveal_strlit("1");
        reveal_strlit("2");
        reveal_strlit("3");
        reveal_strlit("4");
        reveal_strlit("5");
        reveal_strlit("6");
        reveal_strlit("7");
        reveal_strlit("8");
        reveal_strlit("9");
        assert(r@ =~= seq![digit_char_s(d as int)]);
    }
    r
}

/// The decimal digits of an unsigned integer.
pub fn u64_string(n: u64) -> (r: String)
    ensures
        r@ == digits_s(n as int),
    decreases n,
{
    if n < 10 {
        let mut s = String::new();
        s.append(digit_str(n));
        proof {
            assert(s@ =~= digits_s(n as int));
        }
        s
    } else {
        let mut s = u64_string(n / 10);
        s.append(digit_str(n % 10));
        proof {
            assert(s@ =~= digits_s(n as int));
        }
        s
    }
}

/// A fixed-point value rendered with the given number of decimal places
/// (zero, one or two), rounded half away from zero.
pub fn fix_string(v: Fix, decimals: u32) -> (r: String)
    requires
        decimals <= 2,
    ensures
        r@ == fix_str_s(v@, decimals as nat),
{
    let unit: i64 = if decimals == 0 {
        1_000_000
    } else if decimals == 1 {
        100_000
    } else {
        10_000
    };
    let m: i64 = v.micros();
    let a: u64 = if m < 0 {
        (-m) as u64
    } else {
        m as u64
    };
    let scaled: u64 = (a + (unit as u64) / 2) / (unit as u64);
    let mut s = String::new();
    if m < 0 {
        s.append("-");
        proof {
            reveal_strlit("-");
        }
    }
    if decimals == 0 {
        let t = u64_string(scaled);
        s.append(t.as_str());
    } else if decimals == 1 {
        let t = u64_string(scaled / 10);
        s.append(t.as_str());
        s.append(".");
        s.append(digit_str(scaled % 10));
        proof {
            reveal_strlit(".");
        }
    } else {
        let t = u64_string(scaled / 100);
        s.append(t.as_str());
        s.append(".");
        s.append(digit_str((scaled / 10) % 10));
        s.append(digit_str(scaled % 10));
        proof {
            reveal_strlit(".");
        }
    }
    proof {
        assert(s@ =~= fix_str_s(v@, decimals as nat));
    }
    s
}

/// A string left-padded with spaces to a width.
#[verifier::loop_isolation(false)]
pub fn pad_left(s: String, w: usize) -> (r: String)
    ensures
        r@ == pad_left_s(s@, w as nat),
{
    let n = s.as_str().unicode_len();
    if n >= w {
        proof {
            assert(s@ == pad_left_s(s@, w as nat));
        }
        s
    } else {
        let mut out = String::new();
        let mut i: usize = 0;
        while i < w - n
            invariant
                i <= w - n,
                n == s@.len(),
                n < w,
                out@ == repeat_s(' ', i as nat),
            decreases w - n - i,
        {
            out.append(" ");
            proof {
                reveal_strlit(" ");
                repeat_snoc(' ', i as nat);
                assert(out@ =~= repeat_s(' ', (i + 1) as nat));
            }
            i = i + 1;
        }
        out.append(s.as_str());
        proof {
            assert(out@ =~= pad_left_s(s@, w as nat));
        }
        out
    }
}

/// Appending one more character to a repeat run extends it at the end.
pub proof fn repeat_snoc(c: char, n: nat)
    ensures
        repeat_s(c, n + 1) == repeat_s(c, n).push(c),
    decreases n,
{
    if n == 0 {
        assert(repeat_s(c, 1) =~= repeat_s(c, 0).push(c));
    } else {
        repeat_snoc(c, (n - 1) as nat);
        assert(repeat_s(c, n + 1) =~= repeat_s(c, n).push(c));
    }
}

/// A signed integer rendered in decimal.
pub open spec fn int_str_s(v: int) -> Seq<char> {
    if v < 0 {
        seq!['-'] + digits_s(-v)
    } else {
        digits_s(v)
    }
}

/// A signed integer rendered in decimal.
pub fn i64_string(n: i64) -> (r: String)
    ensures
        r@ == int_str_s(n as int),
{
    if n < 0 {
        let mut s = String::new();
        s.append("-");
        let t = u64_string((-(n as i128)) as u64);
        s.append(t.as_str());
        proof {
            reveal_strlit("-");
            assert(s@ =~= int_str_s(n as int));
        }
        s
    } else {
        let r = u64_string(n as u64);
        proof {
            assert(r@ =~= int_str_s(n as int));
        }
        r
    }
}

/// A run of one repeated single-character piece.
#[verifier::loop_isolation(false)]
pub fn repeat_str(piece: &str, n: usize) -> (r: String)
    requires
        piece@.len() == 1,
    ensures
        r@ == repeat_s(piece@[0], n as nat),
{
    let mut out = String::new();
    let mut i: usize = 0;
    while i < n
        invariant
            i <= n,
            out@ == repeat_s(piece@[0], i as nat),
        decreases n - i,
    {
        out.append(piece);
        proof {
            repeat_snoc(piece@[0], i as nat);
            assert(out@ =~= repeat_s(piece@[0], (i + 1) as nat));
        }
        i = i + 1;
    }
    out
}

} // verus!
