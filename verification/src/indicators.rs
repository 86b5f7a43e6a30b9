//! The exponential average and the average true range: which rule fills
//! each position, and which candidate a bar's true range is.
use vstd::prelude::*;
use crate::periods::{has_window, window_fits};
use crate::rank::{is_at_least, paired_len, reaches, ShapeMismatch};

verus! {

/// The candidate that a bar's true range is taken from.
#[derive(Debug, Clone, Copy, PartialEq, Eq, Structural)]
pub enum RangePick {
    /// The bar's own spread, high less low.
    Spread,
    /// The distance of the high from the previous close.
    HighGap,
    /// The distance of the low from the previous close.
    LowGap,
}

/// The rule that fills one position of a smoothed series.
#[derive(Debug, Clone, Copy, PartialEq, Eq, Structural)]
pub enum Step {
    /// The position stays zero.
    Zero,
    /// The position seeds the recurrence.
    Seed,
    /// The position follows from the one before it.
    Smooth,
}

/// The first candidate, in the order spread, high gap, low gap, that is at
/// least both others; the low gap where none is.
pub open spec fn true_range_of(spread: Option<i64>, high_gap: Option<i64>, low_gap: Option<i64>)
    -> RangePick {
    if reaches(spread, high_gap) && reaches(spread, low_gap) {
        RangePick::Spread
    } else if reaches(high_gap, spread) && reaches(high_gap, low_gap) {
        RangePick::HighGap
    } else {
        RangePick::LowGap
    }
}

/// The reading that a pick stands for.
pub open spec fn picked(
    pick: RangePick,
    spread: Option<i64>,
    high_gap: Option<i64>,
    low_gap: Option<i64>,
) -> Option<i64> {
    match pick {
        RangePick::Spread => spread,
        RangePick::HighGap => high_gap,
        RangePick::LowGap => low_gap,
    }
}

/// The rule for position `i` of the average true range of `period` over `n`
/// bars: zero before the seed, the plain mean of the first `period` true
/// ranges at `period - 1`, Wilder's recurrence after it; all zero when no
/// window fits.
pub open spec fn atr_step_of(n: nat, period: nat, i: nat) -> Step {
    if !window_fits(n, period) || i + 1 < period {
        Step::Zero
    } else if i + 1 == period {
        Step::Seed
    } else {
        Step::Smooth
    }
}

/// The rule for position `i` of the exponential average of `period` over
/// `n` readings: the first reading seeds it, every later one blends in; all
/// zero for a period of zero.
pub open spec fn ema_step_of(n: nat, period: nat, i: nat) -> Step {
    if n == 0 || period == 0 {
        Step::Zero
    } else if i == 0 {
        Step::Seed
    } else {
        Step::Smooth
    }
}

/// When all three candidates are defined, the true range is the largest.
pub proof fn lemma_true_range_is_largest(
    spread: Option<i64>,
    high_gap: Option<i64>,
    low_gap: Option<i64>,
)
    requires
        spread is Some,
        high_gap is Some,
        low_gap is Some,
    ensures
        reaches(picked(true_range_of(spread, high_gap, low_gap), spread, high_gap, low_gap), spread),
        reaches(
            picked(true_range_of(spread, high_gap, low_gap), spread, high_gap, low_gap),
            high_gap,
        ),
        reaches(
            picked(true_range_of(spread, high_gap, low_gap), spread, high_gap, low_gap),
            low_gap,
        ),
{
}

/// The average true range has exactly one seed when a window fits, at
/// `period - 1`, with zeros before it and the recurrence after it; and the
/// exponential average of a non-empty series with a positive period leaves
/// no position at zero.
pub proof fn lemma_step_layout(n: nat, period: nat, i: nat)
    requires
        i < n,
    ensures
        window_fits(n, period) ==> (atr_step_of(n, period, i) == Step::Seed <==> i == period - 1),
        window_fits(n, period) ==> (atr_step_of(n, period, i) == Step::Zero <==> i < period - 1),
        !window_fits(n, period) ==> atr_step_of(n, period, i) == Step::Zero,
        period > 0 ==> ema_step_of(n, period, i) != Step::Zero,
        period > 0 ==> (ema_step_of(n, period, i) == Step::Seed <==> i == 0),
{
}

/// Picks the candidate that a bar's true range is taken from.
pub fn true_range_pick(spread: Option<i64>, high_gap: Option<i64>, low_gap: Option<i64>) -> (pick:
    RangePick)
    ensures
        pick == true_range_of(spread, high_gap, low_gap),
{
    if is_at_least(spread, high_gap) && is_at_least(spread, low_gap) {
        RangePick::Spread
    } else if is_at_least(high_gap, spread) && is_at_least(high_gap, low_gap) {
        RangePick::HighGap
    } else {
        RangePick::LowGap
    }
}

/// The rule for position `i` of the average true range.
pub fn atr_step(n: usize, period: usize, i: usize) -> (step: Step)
    ensures
        step == atr_step_of(n as nat, period as nat, i as nat),
{
    if !has_window(n, period) || i < period - 1 {
        Step::Zero
    } else if i == period - 1 {
        Step::Seed
    } else {
        Step::Smooth
    }
}

/// The rule for position `i` of the exponential average.
pub fn ema_step(n: usize, period: usize, i: usize) -> (step: Step)
    ensures
        step == ema_step_of(n as nat, period as nat, i as nat),
{
    if n == 0 || period == 0 {
        Step::Zero
    } else if i == 0 {
        Step::Seed
    } else {
        Step::Smooth
    }
}

/// The smoothing constant of the exponential average of `period`, as the
/// fraction `2 / (period + 1)`. For a positive period it is at most one.
pub fn ema_alpha(period: usize) -> (parts: (u128, u128))
    ensures
        parts.0 == 2,
        parts.1 == period + 1,
        period > 0 ==> parts.0 <= parts.1,
{
    let numerator: u128 = 2;
    let denominator: u128 = period as u128 + 1;
    (numerator, denominator)
}

/// Whether `plan` holds the rule of every position of the exponential
/// average of `period` over `n` readings.
pub open spec fn is_ema_plan(plan: Seq<Step>, n: nat, period: nat) -> bool {
    &&& plan.len() == n
    &&& forall|i: int| 0 <= i < n ==> #[trigger] plan[i] == ema_step_of(n, period, i as nat)
}

/// Whether `plan` holds the rule of every position of the average true
/// range of `period` over `n` bars.
pub open spec fn is_atr_plan(plan: Seq<Step>, n: nat, period: nat) -> bool {
    &&& plan.len() == n
    &&& forall|i: int| 0 <= i < n ==> #[trigger] plan[i] == atr_step_of(n, period, i as nat)
}

/// Two plans of one average over one length and period are equal.
pub proof fn lemma_plan_unique(a: Seq<Step>, b: Seq<Step>, n: nat, period: nat)
    requires
        is_ema_plan(a, n, period) && is_ema_plan(b, n, period) || is_atr_plan(a, n, period)
            && is_atr_plan(b, n, period),
    ensures
        a == b,
{
    assert(a =~= b);
}

/// Plans the exponential average of `period` over `n` readings: the rule
/// that fills each position.
pub fn ema(n: usize, period: usize) -> (plan: Vec<Step>)
    ensures
        is_ema_plan(plan@, n as nat, period as nat),
{
    let mut plan: Vec<Step> = Vec::new();
    let mut i: usize = 0;
    while i < n
        invariant
            i <= n,
            plan.len() == i,
            forall|k: int|
                0 <= k < i ==> #[trigger] plan[k] == ema_step_of(n as nat, period as nat, k as nat),
        decreases n - i,
    {
        plan.push(ema_step(n, period, i));
        i = i + 1;
    }
    plan
}

/// Plans the average true range of `period` over bars whose high, low and
/// close series have the lengths given: the rule that fills each position.
/// Fails when the three lengths are not one.
pub fn atr(high: usize, low: usize, close: usize, period: usize) -> (planned: Result<
    Vec<Step>,
    ShapeMismatch,
>)
    ensures
        high == low && high == close ==> planned is Ok && is_atr_plan(
            planned->Ok_0@,
            high as nat,
            period as nat,
        ),
        high != low ==> planned == Err::<Vec<Step>, ShapeMismatch>(
            ShapeMismatch { expected: high, found: low },
        ),
        high == low && high != close ==> planned == Err::<Vec<Step>, ShapeMismatch>(
            ShapeMismatch { expected: high, found: close },
        ),
{
    let n: usize = match atr_len(high, low, close) {
        Ok(n) => n,
        Err(e) => { return Err(e); },
    };
    let mut plan: Vec<Step> = Vec::new();
    let mut i: usize = 0;
    while i < n
        invariant
            i <= n,
            plan.len() == i,
            forall|k: int|
                0 <= k < i ==> #[trigger] plan[k] == atr_step_of(n as nat, period as nat, k as nat),
        decreases n - i,
    {
        plan.push(atr_step(n, period, i));
        i = i + 1;
    }
    Ok(plan)
}

/// The common length of the high, low and close series of the average true
/// range. Fails on the first series that departs from the length of `high`.
pub fn atr_len(high: usize, low: usize, close: usize) -> (checked: Result<usize, ShapeMismatch>)
    ensures
        high == low && high == close ==> checked == Ok::<usize, ShapeMismatch>(high),
        high != low ==> checked == Err::<usize, ShapeMismatch>(
            ShapeMismatch { expected: high, found: low },
        ),
        high == low && high != close ==> checked == Err::<usize, ShapeMismatch>(
            ShapeMismatch { expected: high, found: close },
        ),
{
    match paired_len(high, low) {
        Ok(_) => paired_len(high, close),
        Err(e) => Err(e),
    }
}

} // verus!
