//! Decimal rendering of season years, and the dataset paths built from them.
//!
//! Most per-season dataset files are named `<prefix><year>`; the year is
//! rendered here by verified code.

use vstd::prelude::*;
use vstd::string::StringExecFns;

verus! {

/// The ten decimal digits.
pub open spec fn digit_char(v: int) -> char {
    if v == 0 {
        '0'
    } else if v == 1 {
        '1'
    } else if v == 2 {
        '2'
    } else if v == 3 {
        '3'
    } else if v == 4 {
        '4'
    } else if v == 5 {
        '5'
    } else if v == 6 {
        '6'
    } else if v == 7 {
        '7'
    } else if v == 8 {
        '8'
    } else {
        '9'
    }
}

/// The decimal representation of a nonnegative number, most significant
/// digit first and without leading zeros.
pub open spec fn dec_rep(n: int) -> Seq<char>
    decreases n,
{
    if n < 0 {
        Seq::empty()
    } else if n < 10 {
        seq![digit_char(n)]
    } else {
        dec_rep(n / 10).push(digit_char(n % 10))
    }
}

fn digit_str(v: u32) -> (c: &'static str)
    requires
        v < 10,
    ensures
        c@.len() == 1,
        c@[0] == digit_char(v as int),
{
    proof {
        reveal_strlit("0");
        reveal_strlit("1");
        reveal_strlit("2");
        reveal_strlit("3");
        reveal_strlit("4");
        reveal_strlit("5");
        reveal_strlit("6");
        reveal_strlit("7");
        reveal_strlit("8");
        reveal_strlit("9");
    }
    if v == 0 {
        "0"
    } else if v == 1 {
        "1"
    } else if v == 2 {
        "2"
    } else if v == 3 {
        "3"
    } else if v == 4 {
        "4"
    } else if v == 5 {
        "5"
    } else if v == 6 {
        "6"
    } else if v == 7 {
        "7"
    } else if v == 8 {
        "8"
    } else {
        "9"
    }
}

/// Render a number in decimal.
pub fn dec_str(n: u32) -> (s: String)
    ensures
        s@ == dec_rep(n as int),
    decreases n,
{
    if n < 10 {
        let s = String::from_str(digit_str(n));
        proof {
            assert(s@ =~= dec_rep(n as int));
        }
        s
    } else {
        let mut s = dec_str(n / 10);
        s.append(digit_str(n % 10));
        proof {
            assert(s@ =~= dec_rep(n as int));
        }
        s
    }
}

/// The path of a per-season dataset file: the dataset's prefix followed by
/// the season year in decimal.
pub fn season_path(prefix: &str, season: i32) -> (path: String)
    requires
        season >= 0,
    ensures
        path@ == prefix@ + dec_rep(season as int),
{
    let mut path = String::from_str(prefix);
    let year = dec_str(season as u32);
    path.append(year.as_str());
    path
}

} // verus!
