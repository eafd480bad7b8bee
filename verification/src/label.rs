//! The default percentage label: `"<percent>%"` for a rounded percent.

use vstd::prelude::*;
use crate::rational::{percent_round, ratio_wf, percent_of};

verus! {

/// The character for decimal digit `d`.
pub open spec fn digit_char(d: int) -> char {
    if d == 0 {
        '0'
    } else if d == 1 {
        '1'
    } else if d == 2 {
        '2'
    } else if d == 3 {
        '3'
    } else if d == 4 {
        '4'
    } else if d == 5 {
        '5'
    } else if d == 6 {
        '6'
    } else if d == 7 {
        '7'
    } else if d == 8 {
        '8'
    } else {
        '9'
    }
}

/// Decimal digits of a value in `[0, 100]`, without leading zeros.
pub open spec fn decimal_chars(v: int) -> Seq<char> {
    if v == 100 {
        seq!['1', '0', '0']
    } else if v >= 10 {
        seq![digit_char(v / 10), digit_char(v % 10)]
    } else {
        seq![digit_char(v)]
    }
}

/// The synthesized label text for ratio `num / den`: the rounded percent
/// followed by a percent sign.
pub open spec fn default_label_chars(num: int, den: int) -> Seq<char> {
    decimal_chars(percent_round(num, den)) + seq!['%']
}

/// The literal for decimal digit `d`.
fn digit_str(d: u64) -> (r: &'static str)
    requires
        d < 10,
    ensures
        r@ == seq![digit_char(d as int)],
{
    proof {
        reveal_strlit("0");
        reveal_strlit("1");
        reveal_strlit("2");
        reveal_strlit("3");
        reveal_strlit("4");
        reveal_strlit("5");
        reveal_strlit("6");
        reveal_strlit("7");
        reveal_strlit("8");
        reveal_strlit("9");
    }
    if d == 0 {
        "0"
    } else if d == 1 {
        "1"
    } else if d == 2 {
        "2"
    } else if d == 3 {
        "3"
    } else if d == 4 {
        "4"
    } else if d == 5 {
        "5"
    } else if d == 6 {
        "6"
    } else if d == 7 {
        "7"
    } else if d == 8 {
        "8"
    } else {
        "9"
    }
}

/// Builds the default label text for ratio `num / den`.
pub fn default_label(num: u64, den: u64) -> (r: String)
    requires
        ratio_wf(num as int, den as int),
    ensures
        r@ == default_label_chars(num as int, den as int),
{
    let p = percent_of(num, den);
    let mut s = String::new();
    if p == 100 {
        proof {
            reveal_strlit("100");
        }
        s.append("100");
        assert(s@ =~= decimal_chars(p as int));
    } else if p >= 10 {
        s.append(digit_str(p / 10));
        s.append(digit_str(p % 10));
        assert(s@ =~= decimal_chars(p as int));
    } else {
        s.append(digit_str(p));
        assert(s@ =~= decimal_chars(p as int));
    }
    proof {
        reveal_strlit("%");
    }
    s.append("%");
    assert(s@ =~= default_label_chars(num as int, den as int));
    s
}

} // verus!
