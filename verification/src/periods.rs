//! Period arithmetic shared by the moving-average engines: when a window
//! fits, where the first computed position lies, which secondary periods the
//! Hull average derives from its own, and the total of the linear weights.
use vstd::prelude::*;

verus! {

/// Whether a series of `n` readings holds at least one full window of `period`.
pub open spec fn window_fits(n: nat, period: nat) -> bool {
    period > 0 && n >= period
}

/// Number of leading positions that a window of `width` leaves undefined when
/// the series it runs over is itself undefined on its first `lead` positions.
/// A window that does not fit leaves the whole series undefined.
pub open spec fn lead_after_window(lead: nat, n: nat, width: nat) -> nat {
    if !window_fits(n, width) {
        n
    } else if lead + width - 1 >= n {
        n
    } else {
        (lead + width - 1) as nat
    }
}

/// Index of the first position that a rolling window of `period` computes on
/// a series of `n` readings; `n` itself when no position is computed.
pub open spec fn first_computed(n: nat, period: nat) -> nat {
    lead_after_window(0, n, period)
}

/// The fast period of the Hull average: half of `period`, at least 2.
pub open spec fn half_of(period: nat) -> nat {
    if period / 2 >= 2 {
        period / 2
    } else {
        2
    }
}

/// Whether `r` is the integer part of the square root of `x`.
pub open spec fn is_floor_sqrt(x: nat, r: nat) -> bool {
    r * r <= x && x < (r + 1) * (r + 1)
}

/// The integer part of the square root of `x`.
pub open spec fn floor_sqrt_of(x: nat) -> nat {
    choose|r: nat| is_floor_sqrt(x, r)
}

/// The smoothing period of the Hull average: the integer part of the square
/// root of `period`, at least 2.
pub open spec fn smoothing_of(period: nat) -> nat {
    if floor_sqrt_of(period) >= 2 {
        floor_sqrt_of(period)
    } else {
        2
    }
}

/// Sum of the linear weights `period, period - 1, ..` over the first `terms`
/// lags of a window.
pub open spec fn weight_sum(period: nat, terms: nat) -> nat
    decreases terms,
{
    if terms == 0 || terms > period {
        0
    } else {
        weight_sum(period, (terms - 1) as nat) + (period - (terms - 1)) as nat
    }
}

/// Number of leading undefined positions of the Hull average of `period` over
/// `n` readings: the two weighted averages are combined position by position,
/// and the smoothing window then runs over the combination.
pub open spec fn hull_lead(n: nat, period: nat) -> nat {
    if !window_fits(n, period) {
        n
    } else {
        let fast = first_computed(n, half_of(period));
        let slow = first_computed(n, period);
        let raw = if fast >= slow { fast } else { slow };
        lead_after_window(raw, n, smoothing_of(period))
    }
}

/// At most one number is the integer part of the square root of `x`.
pub proof fn lemma_floor_sqrt_unique(x: nat, a: nat, b: nat)
    requires
        is_floor_sqrt(x, a),
        is_floor_sqrt(x, b),
    ensures
        a == b,
{
    if a < b {
        assert((a + 1) * (a + 1) <= b * b) by (nonlinear_arith)
            requires
                a + 1 <= b,
        ;
    } else if b < a {
        assert((b + 1) * (b + 1) <= a * a) by (nonlinear_arith)
            requires
                b + 1 <= a,
        ;
    }
}

/// The linear weights of a full window add up to `period * (period + 1) / 2`.
pub proof fn lemma_weight_sum_closed_form(period: nat, terms: nat)
    requires
        terms <= period,
    ensures
        2 * weight_sum(period, terms) == terms * (2 * period - terms + 1),
        terms == period ==> weight_sum(period, terms) == period * (period + 1) / 2,
    decreases terms,
{
    if terms > 0 {
        lemma_weight_sum_closed_form(period, (terms - 1) as nat);
        assert(2 * weight_sum(period, terms) == terms * (2 * period - terms + 1))
            by (nonlinear_arith)
            requires
                terms > 0,
                terms <= period,
                2 * weight_sum(period, (terms - 1) as nat) == (terms - 1) * (2 * period - (terms
                    - 1) + 1),
                weight_sum(period, terms) == weight_sum(period, (terms - 1) as nat) + (period - (
                terms - 1)),
        ;
    } else {
        assert(terms * (2 * period - terms + 1) == 0) by (nonlinear_arith)
            requires
                terms == 0,
        ;
    }
    if terms == period {
        assert(terms * (2 * period - terms + 1) == period * (period + 1)) by (nonlinear_arith)
            requires
                terms == period,
        ;
    }
}

/// The Hull average is undefined at least as long as the weighted average of
/// the same period over the same series.
pub proof fn lemma_hull_lead_covers_wma_lead(n: nat, period: nat)
    ensures
        hull_lead(n, period) >= first_computed(n, period),
        hull_lead(n, period) <= n,
        first_computed(n, period) <= n,
{
}

/// Decides whether a series of `n` readings holds a full window of `period`.
pub fn has_window(n: usize, period: usize) -> (fits: bool)
    ensures
        fits == window_fits(n as nat, period as nat),
{
    period != 0 && n >= period
}

/// Index of the first position that a window of `period` computes on `n`
/// readings: `period - 1` when the window fits, `n` when it does not.
pub fn first_defined(n: usize, period: usize) -> (first: usize)
    ensures
        first == first_computed(n as nat, period as nat),
        window_fits(n as nat, period as nat) ==> first == period - 1,
        !window_fits(n as nat, period as nat) ==> first == n,
{
    if period == 0 || n < period {
        n
    } else {
        period - 1
    }
}

/// Undefined prefix left by a window of `width` over a series whose first
/// `lead` positions are undefined.
pub fn lead_through_window(lead: usize, n: usize, width: usize) -> (out: usize)
    ensures
        out == lead_after_window(lead as nat, n as nat, width as nat),
        out <= n,
        lead <= n ==> lead <= out,
{
    if width == 0 || n < width {
        n
    } else if lead >= n - (width - 1) {
        n
    } else {
        lead + (width - 1)
    }
}

/// The fast period that the Hull average derives from `period`.
pub fn half_period(period: usize) -> (half: usize)
    ensures
        half == half_of(period as nat),
        half >= 2,
{
    let half: usize = period / 2;
    if half >= 2 {
        half
    } else {
        2
    }
}

/// Integer part of the square root of `x`, by bisection.
pub fn floor_sqrt(x: usize) -> (root: usize)
    ensures
        is_floor_sqrt(x as nat, root as nat),
        root == floor_sqrt_of(x as nat),
{
    let target: u128 = x as u128;
    let mut lo: u128 = 0;
    let mut hi: u128 = 4294967296;
    assert(target < hi * hi) by (nonlinear_arith)
        requires
            target <= 0xffff_ffff_ffff_ffff,
            hi == 4294967296,
    ;
    while hi - lo > 1
        invariant
            target == x,
            lo < hi <= 4294967296,
            lo * lo <= target,
            target < hi * hi,
        decreases hi - lo,
    {
        let mid: u128 = lo + (hi - lo) / 2;
        assert(mid * mid <= 4294967296 * 4294967296) by (nonlinear_arith)
            requires
                mid <= 4294967296,
        ;
        if mid * mid <= target {
            lo = mid;
        } else {
            hi = mid;
        }
    }
    assert(lo <= target) by (nonlinear_arith)
        requires
            lo * lo <= target,
    ;
    proof {
        assert(is_floor_sqrt(x as nat, lo as nat));
        lemma_floor_sqrt_unique(x as nat, lo as nat, floor_sqrt_of(x as nat));
    }
    lo as usize
}

/// The smoothing period that the Hull average derives from `period`.
pub fn smoothing_period(period: usize) -> (width: usize)
    ensures
        width == smoothing_of(period as nat),
        width >= 2,
{
    let root: usize = floor_sqrt(period);
    if root >= 2 {
        root
    } else {
        2
    }
}

/// Total of the linear weights of a window of `period`, the divisor of the
/// weighted average.
pub fn weight_total(period: usize) -> (total: u128)
    ensures
        total == weight_sum(period as nat, period as nat),
        total == period * (period + 1) / 2,
{
    proof {
        lemma_weight_sum_closed_form(period as nat, period as nat);
        assert((period as u128) * (period as u128 + 1) <= 0xffff_ffff_ffff_ffff
            * 0x1_0000_0000_0000_0000) by (nonlinear_arith)
            requires
                period <= 0xffff_ffff_ffff_ffff,
        ;
    }
    let p: u128 = period as u128;
    p * (p + 1) / 2
}

/// Weight of the reading `lag` steps behind the newest one in a window of
/// `period`: the newest weighs `period`, the oldest 1.
pub fn weight_at(period: usize, lag: usize) -> (weight: usize)
    requires
        lag < period,
    ensures
        weight == period - lag,
        1 <= weight <= period,
        weight_sum(period as nat, (lag + 1) as nat) == weight_sum(period as nat, lag as nat)
            + weight,
{
    period - lag
}

/// Undefined prefix of the Hull average of `period` over `n` readings.
pub fn hull_first_defined(n: usize, period: usize) -> (first: usize)
    ensures
        first == hull_lead(n as nat, period as nat),
        first >= first_computed(n as nat, period as nat),
        first <= n,
{
    if !has_window(n, period) {
        n
    } else {
        let fast: usize = first_defined(n, half_period(period));
        let slow: usize = first_defined(n, period);
        let raw: usize = if fast >= slow { fast } else { slow };
        lead_through_window(raw, n, smoothing_period(period))
    }
}

} // verus!
