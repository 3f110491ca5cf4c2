//! Verified text rendering for the numeric values the dashboard displays:
//! decimal numbers stored in tenths of a unit, two-digit clock fields,
//! `HH:MM` instants, and compressed hour ranges such as `06:00-08:00`.

use vstd::prelude::*;
use vstd::string::StringExecFns;

verus! {

/// The character for one decimal digit.
pub open spec fn digit_char(d: int) -> char {
    if d == 0 {
        '0'
    } else if d == 1 {
        '1'
    } else if d == 2 {
        '2'
    } else if d == 3 {
        '3'
    } else if d == 4 {
        '4'
    } else if d == 5 {
        '5'
    } else if d == 6 {
        '6'
    } else if d == 7 {
        '7'
    } else if d == 8 {
        '8'
    } else {
        '9'
    }
}

/// The decimal digits of a non-negative integer, most significant first.
pub open spec fn dec_digits(n: int) -> Seq<char>
    decreases n,
{
    if n < 10 {
        seq![digit_char(n)]
    } else {
        dec_digits(n / 10) + seq![digit_char(n % 10)]
    }
}

/// A value in tenths of a unit, printed as its plain decimal value: the
/// fractional digit appears only when it is nonzero, and negative values
/// carry a leading minus sign.
pub open spec fn deci_text(v: int) -> Seq<char> {
    let a = if v < 0 {
        -v
    } else {
        v
    };
    let sign = if v < 0 {
        seq!['-']
    } else {
        Seq::<char>::empty()
    };
    if a % 10 == 0 {
        sign + dec_digits(a / 10)
    } else {
        sign + dec_digits(a / 10) + seq!['.', digit_char(a % 10)]
    }
}

/// An hour or minute count, always printed with two digits.
pub open spec fn two_digit_text(v: int) -> Seq<char> {
    if v < 10 {
        seq!['0', digit_char(v)]
    } else {
        dec_digits(v)
    }
}

/// A Unix instant printed as the `HH:MM` clock reading of its UTC day
/// (the day-second is the Euclidean remainder, so instants before 1970
/// read correctly too).
pub open spec fn hhmm_text(t: int) -> Seq<char> {
    two_digit_text((t % 86400) / 3600) + seq![':'] + two_digit_text(((t % 86400) % 3600) / 60)
}

fn digit_str(d: u64) -> (r: &'static str)
    requires
        d < 10,
    ensures
        r@ == seq![digit_char(d as int)],
{
    proof {
        reveal_strlit("0");
        reveal_strlit("1");
        reveal_strlit("2");
        reveal_strlit("3");
        reveal_strlit("4");
        reveal_strlit("5");
        reveal_strlit("6");
        reveal_strlit("7");
        reveal_strlit("8");
        reveal_strlit("9");
    }
    if d == 0 {
        let r = "0";
        assert(r@ =~= seq![digit_char(d as int)]);
        r
    } else if d == 1 {
        let r = "1";
        assert(r@ =~= seq![digit_char(d as int)]);
        r
    } else if d == 2 {
        let r = "2";
        assert(r@ =~= seq![digit_char(d as int)]);
        r
    } else if d == 3 {
        let r = "3";
        assert(r@ =~= seq![digit_char(d as int)]);
        r
    } else if d == 4 {
        let r = "4";
        assert(r@ =~= seq![digit_char(d as int)]);
        r
    } else if d == 5 {
        let r = "5";
        assert(r@ =~= seq![digit_char(d as int)]);
        r
    } else if d == 6 {
        let r = "6";
        assert(r@ =~= seq![digit_char(d as int)]);
        r
    } else if d == 7 {
        let r = "7";
        assert(r@ =~= seq![digit_char(d as int)]);
        r
    } else if d == 8 {
        let r = "8";
        assert(r@ =~= seq![digit_char(d as int)]);
        r
    } else {
        let r = "9";
        assert(r@ =~= seq![digit_char(d as int)]);
        r
    }
}

/// Renders a non-negative integer in decimal.
pub fn u64_to_string(n: u64) -> (r: String)
    ensures
        r@ == dec_digits(n as int),
    decreases n,
{
    if n < 10 {
        digit_str(n).to_string()
    } else {
        let mut s = u64_to_string(n / 10);
        s.append(digit_str(n % 10));
        s
    }
}

/// Renders a value held in tenths of a unit, e.g. `205` as `20.5` and
/// `-30` as `-3`.
pub fn format_deci(v: i64) -> (r: String)
    requires
        v > i64::MIN,
    ensures
        r@ == deci_text(v as int),
{
    let mut s = String::new();
    let a: u64 = if v < 0 {
        proof {
            reveal_strlit("-");
        }
        s.append("-");
        assert(s@ =~= seq!['-']);
        (-v) as u64
    } else {
        v as u64
    };
    s.append(u64_to_string(a / 10).as_str());
    if a % 10 != 0 {
        proof {
            reveal_strlit(".");
        }
        s.append(".");
        s.append(digit_str(a % 10));
        proof {
            assert(s@ =~= deci_text(v as int));
        }
    } else {
        proof {
            assert(s@ =~= deci_text(v as int));
        }
    }
    s
}

/// Renders an hour or minute count with two digits.
pub fn format_two_digit(v: u64) -> (r: String)
    requires
        v < 100,
    ensures
        r@ == two_digit_text(v as int),
{
    if v < 10 {
        proof {
            reveal_strlit("0");
        }
        let mut s = "0".to_string();
        assert(s@ =~= seq!['0']);
        s.append(digit_str(v));
        assert(s@ =~= two_digit_text(v as int));
        s
    } else {
        u64_to_string(v)
    }
}

/// Renders a Unix instant as the `HH:MM` clock reading of its day.
pub fn format_hhmm(t: i64) -> (r: String)
    requires
        -1_000_000_000_000_000 <= t <= 1_000_000_000_000_000,
    ensures
        r@ == hhmm_text(t as int),
{
    let rem = t % 86400;
    let day_second = if rem < 0 {
        rem + 86400
    } else {
        rem
    };
    proof {
        assert(day_second == t as int % 86400);
    }
    let hour = day_second / 3600;
    let minute = (day_second % 3600) / 60;
    let mut s = format_two_digit(hour as u64);
    proof {
        reveal_strlit(":");
    }
    s.append(":");
    s.append(format_two_digit(minute as u64).as_str());
    proof {
        assert(s@ =~= hhmm_text(t as int));
    }
    s
}

} // verus!
