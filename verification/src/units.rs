//! Conversion of physical lengths into the `"12.35mm"` strings that the
//! output format expects.
//!
//! A length is an `i64` counting hundredths of a millimetre: every constant
//! of the layout (paper size, margins, cell size, stroke offsets) is an exact
//! multiple of 0.01 mm, so integer arithmetic loses nothing.  The string form
//! prints the integer part, then the fractional part with trailing zeros
//! trimmed and the decimal point dropped when the fraction is zero, matching
//! the shortest decimal rendering of the underlying value.
use vstd::prelude::*;
use vstd::string::StringExecFns;

verus! {

/// The decimal digit `d` (0 to 9) as a character.
pub open spec fn digit_char(d: int) -> char {
    if d == 0 {
        '0'
    } else if d == 1 {
        '1'
    } else if d == 2 {
        '2'
    } else if d == 3 {
        '3'
    } else if d == 4 {
        '4'
    } else if d == 5 {
        '5'
    } else if d == 6 {
        '6'
    } else if d == 7 {
        '7'
    } else if d == 8 {
        '8'
    } else {
        '9'
    }
}

/// The decimal digits of the non-negative integer `n`, most significant first.
pub open spec fn dec_spec(n: int) -> Seq<char>
    decreases n,
{
    if n < 10 {
        seq![digit_char(n)]
    } else {
        dec_spec(n / 10).push(digit_char(n % 10))
    }
}

/// The fractional part of a length, given its value `f` in hundredths
/// (0 <= f < 100): empty when zero, one digit when a multiple of ten,
/// two digits otherwise, always preceded by the decimal point.
pub open spec fn frac_spec(f: int) -> Seq<char> {
    if f == 0 {
        Seq::<char>::empty()
    } else if f % 10 == 0 {
        seq!['.', digit_char(f / 10)]
    } else {
        seq!['.', digit_char(f / 10), digit_char(f % 100 % 10)]
    }
}

/// The millimetre string of a length `v` in hundredths of a millimetre:
/// an optional sign, the whole millimetres, the trimmed fraction, and the
/// unit suffix.
pub open spec fn mm_spec(v: int) -> Seq<char> {
    let a = if v < 0 {
        -v
    } else {
        v
    };
    let sign = if v < 0 {
        seq!['-']
    } else {
        Seq::<char>::empty()
    };
    sign + dec_spec(a / 100) + frac_spec(a % 100) + seq!['m', 'm']
}

/// The single decimal digit `d` as a string slice.
fn digit_str(d: u64) -> (r: &'static str)
    requires
        d < 10,
    ensures
        r@ == seq![digit_char(d as int)],
{
    proof {
        reveal_strlit("0");
        reveal_strlit("1");
        reveal_strlit("2");
        reveal_strlit("3");
        reveal_strlit("4");
        reveal_strlit("5");
        reveal_strlit("6");
        reveal_strlit("7");
        reveal_strlit("8");
        reveal_strlit("9");
        assert("0"@ =~= seq![digit_char(0)]);
        assert("1"@ =~= seq![digit_char(1)]);
        assert("2"@ =~= seq![digit_char(2)]);
        assert("3"@ =~= seq![digit_char(3)]);
        assert("4"@ =~= seq![digit_char(4)]);
        assert("5"@ =~= seq![digit_char(5)]);
        assert("6"@ =~= seq![digit_char(6)]);
        assert("7"@ =~= seq![digit_char(7)]);
        assert("8"@ =~= seq![digit_char(8)]);
        assert("9"@ =~= seq![digit_char(9)]);
    }
    if d == 0 {
        "0"
    } else if d == 1 {
        "1"
    } else if d == 2 {
        "2"
    } else if d == 3 {
        "3"
    } else if d == 4 {
        "4"
    } else if d == 5 {
        "5"
    } else if d == 6 {
        "6"
    } else if d == 7 {
        "7"
    } else if d == 8 {
        "8"
    } else {
        "9"
    }
}

/// Appends the decimal digits of `n` to `s`.
fn push_dec(s: &mut String, n: u64)
    ensures
        final(s)@ == old(s)@ + dec_spec(n as int),
    decreases n,
{
    if n < 10 {
        s.append(digit_str(n));
    } else {
        push_dec(s, n / 10);
        s.append(digit_str(n % 10));
        assert(s@ =~= old(s)@ + dec_spec(n as int));
    }
}

/// Converts a length in hundredths of a millimetre into its millimetre
/// string, e.g. 500 into "5mm" and 10795 into "107.95mm".
pub fn mm(v: i64) -> (s: String)
    requires
        v > i64::MIN,
    ensures
        s@ == mm_spec(v as int),
{
    let mut s = String::new();
    if v < 0 {
        s.append("-");
    }
    let a: u64 = if v < 0 {
        (-v) as u64
    } else {
        v as u64
    };
    push_dec(&mut s, a / 100);
    let f: u64 = a % 100;
    if f != 0 {
        s.append(".");
        if f % 10 == 0 {
            s.append(digit_str(f / 10));
        } else {
            s.append(digit_str(f / 10));
            s.append(digit_str(f % 10));
        }
    }
    s.append("mm");
    proof {
        reveal_strlit("-");
        reveal_strlit(".");
        reveal_strlit("mm");
        assert(s@ =~= mm_spec(v as int));
    }
    s
}

} // verus!
