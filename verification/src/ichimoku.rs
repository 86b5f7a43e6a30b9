//! The classic Ichimoku line: for every position, which high and which low
//! its midpoint is taken from.
use vstd::prelude::*;
use crate::periods::{first_defined, has_window, window_fits};
use crate::rank::{exceeds, is_above, paired_len, ShapeMismatch};

verus! {

/// Where one position of a classic Ichimoku line takes its value from.
#[derive(Debug, Clone, Copy, PartialEq, Eq, Structural)]
pub enum Pick {
    /// No window fits the series: the position holds zero.
    Zero,
    /// The midpoint of the high at `high_at` and the low at `low_at`.
    Mid { high_at: usize, low_at: usize },
}

/// The picks of the three lines of the classic cloud that are rolling
/// midpoints; the fourth is the average of the first two.
#[derive(Debug)]
pub struct CloudPlan {
    /// The conversion line.
    pub tenkan: Vec<Pick>,
    /// The base line.
    pub kijun: Vec<Pick>,
    /// The second leading span.
    pub senkou_b: Vec<Pick>,
}

/// Index that a left-to-right scan of `s[start..=end]` settles on when it
/// moves only to a reading strictly above the one it holds.
pub open spec fn peak_at(s: Seq<Option<i64>>, start: int, end: int) -> int
    decreases end - start,
{
    if end <= start {
        start
    } else {
        let held = peak_at(s, start, end - 1);
        if exceeds(s[end], s[held]) {
            end
        } else {
            held
        }
    }
}

/// Index that a left-to-right scan of `s[start..=end]` settles on when it
/// moves only to a reading strictly below the one it holds.
pub open spec fn trough_at(s: Seq<Option<i64>>, start: int, end: int) -> int
    decreases end - start,
{
    if end <= start {
        start
    } else {
        let held = trough_at(s, start, end - 1);
        if exceeds(s[held], s[end]) {
            end
        } else {
            held
        }
    }
}

/// The window that position `i` of a line of `period` takes its pick from:
/// the one that ends at `i`, or the first full one where `i` lies before it.
pub open spec fn window_end(period: nat, i: int) -> int {
    if i < period - 1 {
        period - 1
    } else {
        i
    }
}

/// The pick of position `i` of the line of `period` over `high` and `low`.
/// Positions before the first full window take the pick of that window.
pub open spec fn line_pick(
    high: Seq<Option<i64>>,
    low: Seq<Option<i64>>,
    period: nat,
    i: int,
) -> Pick {
    if !window_fits(high.len(), period) {
        Pick::Zero
    } else {
        let at = window_end(period, i);
        Pick::Mid {
            high_at: peak_at(high, at - period + 1, at) as usize,
            low_at: trough_at(low, at - period + 1, at) as usize,
        }
    }
}

/// Whether `plan` is the line of `period` over `high` and `low`.
pub open spec fn is_line(
    plan: Seq<Pick>,
    high: Seq<Option<i64>>,
    low: Seq<Option<i64>>,
    period: nat,
) -> bool {
    &&& plan.len() == high.len()
    &&& forall|i: int| 0 <= i < plan.len() ==> #[trigger] plan[i] == line_pick(high, low, period, i)
}

/// Whether `at` is the peak of `s[start..=end]`: it lies in the window,
/// nothing in the window is above it, and every defined reading before it is
/// strictly below it. Where the first reading is undefined, the peak is that
/// reading; where it is defined, the peak is defined too.
pub open spec fn is_peak(s: Seq<Option<i64>>, start: int, end: int, at: int) -> bool {
    &&& start <= at <= end
    &&& s[start] is None ==> at == start
    &&& s[start] is Some ==> s[at] is Some
    &&& forall|k: int| start <= k <= end ==> !exceeds(#[trigger] s[k], s[at])
    &&& forall|k: int| start <= k < at && (#[trigger] s[k]) is Some ==> exceeds(s[at], s[k])
}

/// Whether `at` is the trough of `s[start..=end]`: it lies in the window,
/// nothing in the window is below it, and every defined reading before it is
/// strictly above it. Where the first reading is undefined, the trough is
/// that reading; where it is defined, the trough is defined too.
pub open spec fn is_trough(s: Seq<Option<i64>>, start: int, end: int, at: int) -> bool {
    &&& start <= at <= end
    &&& s[start] is None ==> at == start
    &&& s[start] is Some ==> s[at] is Some
    &&& forall|k: int| start <= k <= end ==> !exceeds(s[at], #[trigger] s[k])
    &&& forall|k: int| start <= k < at && (#[trigger] s[k]) is Some ==> exceeds(s[k], s[at])
}

/// The scan for the peak settles on the peak of its window.
pub proof fn lemma_peak_is_first_maximum(s: Seq<Option<i64>>, start: int, end: int)
    requires
        0 <= start <= end < s.len(),
    ensures
        is_peak(s, start, end, peak_at(s, start, end)),
    decreases end - start,
{
    if end > start {
        lemma_peak_is_first_maximum(s, start, end - 1);
    }
}

/// The scan for the trough settles on the trough of its window.
pub proof fn lemma_trough_is_first_minimum(s: Seq<Option<i64>>, start: int, end: int)
    requires
        0 <= start <= end < s.len(),
    ensures
        is_trough(s, start, end, trough_at(s, start, end)),
    decreases end - start,
{
    if end > start {
        lemma_trough_is_first_minimum(s, start, end - 1);
    }
}

/// A window has one peak and one trough: the indices that the scans settle
/// on.
pub proof fn lemma_peak_and_trough_unique(s: Seq<Option<i64>>, start: int, end: int, at: int)
    requires
        0 <= start <= end < s.len(),
    ensures
        is_peak(s, start, end, at) <==> at == peak_at(s, start, end),
        is_trough(s, start, end, at) <==> at == trough_at(s, start, end),
{
    lemma_peak_is_first_maximum(s, start, end);
    lemma_trough_is_first_minimum(s, start, end);
    let p = peak_at(s, start, end);
    let t = trough_at(s, start, end);
    if is_peak(s, start, end, at) && at != p {
        assert(s[start] is Some);
        assert(s[at] is Some && s[p] is Some);
        if at < p {
            assert(exceeds(s[p], s[at]));
        } else {
            assert(exceeds(s[at], s[p]));
        }
        assert(false);
    }
    if is_trough(s, start, end, at) && at != t {
        assert(s[start] is Some);
        assert(s[at] is Some && s[t] is Some);
        if at < t {
            assert(exceeds(s[at], s[t]));
        } else {
            assert(exceeds(s[t], s[at]));
        }
        assert(false);
    }
}

/// Every position before the first full window holds what the first full
/// window holds.
pub proof fn lemma_line_starts_flat(
    high: Seq<Option<i64>>,
    low: Seq<Option<i64>>,
    period: nat,
    i: int,
)
    requires
        i < period - 1,
    ensures
        line_pick(high, low, period, i) == line_pick(high, low, period, period - 1),
{
}

/// Where a window fits, every pick of the line is the midpoint of the peak
/// of the highs and the trough of the lows of its window.
pub proof fn lemma_line_pick_in_window(
    high: Seq<Option<i64>>,
    low: Seq<Option<i64>>,
    period: nat,
    i: int,
)
    requires
        high.len() == low.len(),
        high.len() <= usize::MAX,
        window_fits(high.len(), period),
        0 <= i < high.len(),
    ensures
        line_pick(high, low, period, i) is Mid,
        is_peak(
            high,
            window_end(period, i) - period + 1,
            window_end(period, i),
            line_pick(high, low, period, i)->high_at as int,
        ),
        is_trough(
            low,
            window_end(period, i) - period + 1,
            window_end(period, i),
            line_pick(high, low, period, i)->low_at as int,
        ),
{
    let at = window_end(period, i);
    lemma_peak_is_first_maximum(high, at - period + 1, at);
    lemma_trough_is_first_minimum(low, at - period + 1, at);
}

/// Two plans of one line over one pair of series are equal.
pub proof fn lemma_line_unique(
    a: Seq<Pick>,
    b: Seq<Pick>,
    high: Seq<Option<i64>>,
    low: Seq<Option<i64>>,
    period: nat,
)
    requires
        is_line(a, high, low, period),
        is_line(b, high, low, period),
    ensures
        a == b,
{
    assert(a =~= b);
}

/// Index of the peak of `s[start..=end]`: the first reading that nothing in
/// the window is above, or `start` where the first reading is undefined.
pub fn peak_index(s: &Vec<Option<i64>>, start: usize, end: usize) -> (at: usize)
    requires
        start <= end < s.len(),
    ensures
        is_peak(s@, start as int, end as int, at as int),
        at == peak_at(s@, start as int, end as int),
{
    proof {
        lemma_peak_is_first_maximum(s@, start as int, end as int);
    }
    let mut held: usize = start;
    let mut j: usize = start;
    while j < end
        invariant
            start <= held <= j <= end < s.len(),
            held == peak_at(s@, start as int, j as int),
        decreases end - j,
    {
        j = j + 1;
        if is_above(s[j], s[held]) {
            held = j;
        }
    }
    held
}

/// Index of the trough of `s[start..=end]`: the first reading that nothing
/// in the window is below, or `start` where the first reading is undefined.
pub fn trough_index(s: &Vec<Option<i64>>, start: usize, end: usize) -> (at: usize)
    requires
        start <= end < s.len(),
    ensures
        is_trough(s@, start as int, end as int, at as int),
        at == trough_at(s@, start as int, end as int),
{
    proof {
        lemma_trough_is_first_minimum(s@, start as int, end as int);
    }
    let mut held: usize = start;
    let mut j: usize = start;
    while j < end
        invariant
            start <= held <= j <= end < s.len(),
            held == trough_at(s@, start as int, j as int),
        decreases end - j,
    {
        j = j + 1;
        if is_above(s[held], s[j]) {
            held = j;
        }
    }
    held
}

/// Plans the classic Ichimoku line of `period`: for each position the high
/// and the low whose midpoint it holds. Fails when `high` and `low` differ in
/// length; plans all zeros when no window fits.
pub fn ichimoku_line(high: &Vec<Option<i64>>, low: &Vec<Option<i64>>, period: usize) -> (planned:
    Result<Vec<Pick>, ShapeMismatch>)
    ensures
        high.len() == low.len() ==> planned is Ok && is_line(
            planned->Ok_0@,
            high@,
            low@,
            period as nat,
        ),
        high.len() != low.len() ==> planned == Err::<Vec<Pick>, ShapeMismatch>(
            ShapeMismatch { expected: high.len(), found: low.len() },
        ),
{
    let n: usize = match paired_len(high.len(), low.len()) {
        Ok(n) => n,
        Err(e) => { return Err(e); },
    };
    let mut plan: Vec<Pick> = Vec::new();
    let mut i: usize = 0;
    while i < n
        invariant
            i <= n,
            plan.len() == i,
            forall|k: int| 0 <= k < i ==> #[trigger] plan[k] == Pick::Zero,
        decreases n - i,
    {
        plan.push(Pick::Zero);
        i = i + 1;
    }
    if !has_window(n, period) {
        return Ok(plan);
    }
    let first: usize = first_defined(n, period);
    let mut i: usize = first;
    while i < n
        invariant
            n == high.len(),
            n == low.len(),
            window_fits(n as nat, period as nat),
            first == period - 1,
            first <= i <= n,
            plan.len() == n,
            forall|k: int|
                first <= k < i ==> #[trigger] plan[k] == line_pick(high@, low@, period as nat, k),
        decreases n - i,
    {
        let start: usize = i - first;
        let high_at: usize = peak_index(high, start, i);
        let low_at: usize = trough_index(low, start, i);
        plan.set(i, Pick::Mid { high_at, low_at });
        i = i + 1;
    }
    let seed: Pick = plan[first];
    let mut i: usize = 0;
    while i < first
        invariant
            n == high.len(),
            window_fits(n as nat, period as nat),
            first == period - 1,
            i <= first < n,
            plan.len() == n,
            seed == line_pick(high@, low@, period as nat, first as int),
            forall|k: int|
                first <= k < n ==> #[trigger] plan[k] == line_pick(high@, low@, period as nat, k),
            forall|k: int|
                0 <= k < i ==> #[trigger] plan[k] == line_pick(high@, low@, period as nat, k),
        decreases first - i,
    {
        plan.set(i, seed);
        i = i + 1;
    }
    Ok(plan)
}

/// Plans the three rolling lines of the classic cloud over one pair of
/// series. Fails when `high` and `low` differ in length.
pub fn ichimoku_components(
    high: &Vec<Option<i64>>,
    low: &Vec<Option<i64>>,
    tenkan_period: usize,
    kijun_period: usize,
    senkou_period: usize,
) -> (planned: Result<CloudPlan, ShapeMismatch>)
    ensures
        high.len() == low.len() ==> planned is Ok && is_line(
            planned->Ok_0.tenkan@,
            high@,
            low@,
            tenkan_period as nat,
        ) && is_line(planned->Ok_0.kijun@, high@, low@, kijun_period as nat) && is_line(
            planned->Ok_0.senkou_b@,
            high@,
            low@,
            senkou_period as nat,
        ),
        high.len() != low.len() ==> planned is Err && planned->Err_0 == (ShapeMismatch {
            expected: high.len(),
            found: low.len(),
        }),
{
    let tenkan = match ichimoku_line(high, low, tenkan_period) {
        Ok(line) => line,
        Err(e) => { return Err(e); },
    };
    let kijun = match ichimoku_line(high, low, kijun_period) {
        Ok(line) => line,
        Err(e) => { return Err(e); },
    };
    let senkou_b = match ichimoku_line(high, low, senkou_period) {
        Ok(line) => line,
        Err(e) => { return Err(e); },
    };
    Ok(CloudPlan { tenkan, kijun, senkou_b })
}

} // verus!
