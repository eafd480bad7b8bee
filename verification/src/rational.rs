//! Proportional fill arithmetic over an exact ratio.
//!
//! The completion ratio is kept as a rational number `num / den` with
//! `0 <= num <= den` and `den >= 1`. Scaling a width by the ratio rounds
//! half up: `round(w * num / den) = (2*w*num + den) / (2*den)` with floor
//! division, which is the rounding the contracts in this crate use.

use vstd::prelude::*;

verus! {

/// The ratio `num / den` is a well-formed completion fraction in `[0, 1]`.
pub open spec fn ratio_wf(num: int, den: int) -> bool {
    1 <= den && 0 <= num <= den
}

/// `w` scaled by `num / den`, rounded half up.
pub open spec fn scale_round(w: int, num: int, den: int) -> int {
    (2 * w * num + den) / (2 * den)
}

/// Scaling by a well-formed ratio never exceeds `w`, an empty ratio yields 0,
/// and a full ratio yields exactly `w`.
pub proof fn lemma_scale_round_range(w: int, num: int, den: int)
    requires
        0 <= w,
        ratio_wf(num, den),
    ensures
        0 <= scale_round(w, num, den) <= w,
        num == 0 ==> scale_round(w, num, den) == 0,
        num == den ==> scale_round(w, num, den) == w,
{
    assert(0 <= (2 * w * num + den) / (2 * den) <= w) by (nonlinear_arith)
        requires
            0 <= w,
            1 <= den,
            0 <= num <= den,
    ;
    assert(num == 0 ==> (2 * w * num + den) / (2 * den) == 0) by (nonlinear_arith)
        requires
            0 <= w,
            1 <= den,
    ;
    assert(num == den ==> (2 * w * num + den) / (2 * den) == w) by (nonlinear_arith)
        requires
            0 <= w,
            1 <= den,
    ;
}

/// Number of cells of a `width`-cell span that a ratio of `num / den` fills.
pub fn fill_width(width: u16, num: u64, den: u64) -> (r: u16)
    requires
        ratio_wf(num as int, den as int),
    ensures
        r == scale_round(width as int, num as int, den as int),
        r <= width,
{
    proof {
        lemma_scale_round_range(width as int, num as int, den as int);
        assert(2 * (width as int) * (num as int) + (den as int) < u128::MAX) by (nonlinear_arith)
            requires
                width <= u16::MAX,
                num <= u64::MAX,
                den <= u64::MAX,
        ;
    }
    let n: u128 = 2 * (width as u128) * (num as u128) + (den as u128);
    let d: u128 = 2 * (den as u128);
    let q: u128 = n / d;
    assert(q == scale_round(width as int, num as int, den as int));
    q as u16
}

/// The ratio `num / den` as a percentage in `[0, 100]`, rounded half up.
pub open spec fn percent_round(num: int, den: int) -> int {
    scale_round(100, num, den)
}

/// The rounded percentage of a well-formed ratio, used for the default label.
pub fn percent_of(num: u64, den: u64) -> (p: u64)
    requires
        ratio_wf(num as int, den as int),
    ensures
        p == percent_round(num as int, den as int),
        p <= 100,
{
    proof {
        lemma_scale_round_range(100, num as int, den as int);
    }
    let n: u128 = 200 * (num as u128) + (den as u128);
    let d: u128 = 2 * (den as u128);
    let q: u128 = n / d;
    assert(q == percent_round(num as int, den as int));
    q as u64
}

} // verus!
