//! The weighted and the Hull moving average: which periods the Hull average
//! runs its stages with, and which positions of either average are computed
//! from defined readings alone. Every other position is undefined.
//!
//! A mask holds one flag for each position of a series: whether it is
//! defined.
use vstd::prelude::*;
use crate::rank::{defined, defined_mask};
use crate::periods::{
    first_computed,
    half_of,
    half_period,
    has_window,
    hull_lead,
    smoothing_of,
    smoothing_period,
    weight_sum,
    window_fits,
};

verus! {

/// The periods of the three weighted averages that make up a Hull average.
#[derive(Debug, Clone, Copy, PartialEq, Eq, Structural)]
pub struct HullStages {
    /// Period of the fast average over the prices.
    pub fast: usize,
    /// Period of the slow average over the prices.
    pub slow: usize,
    /// Period of the average that smooths the combined series.
    pub smooth: usize,
}

/// Whether position `i` of the weighted average of `period` is computed from
/// defined readings alone: a window fits the series, a full window ends at
/// `i`, and every reading in it is defined.
pub open spec fn window_defined(src: Seq<bool>, period: nat, i: int) -> bool {
    &&& window_fits(src.len(), period)
    &&& i + 1 >= period
    &&& forall|k: int| i - period < k <= i ==> #[trigger] src[k]
}

/// Whether position `i` of the combined series of the Hull average is
/// defined: both the fast and the slow average are.
pub open spec fn hull_raw_defined(src: Seq<bool>, period: nat, i: int) -> bool {
    window_defined(src, half_of(period), i) && window_defined(src, period, i)
}

/// The combined series of the Hull average, position by position.
pub open spec fn hull_raw(src: Seq<bool>, period: nat) -> Seq<bool> {
    Seq::new(src.len(), |k: int| hull_raw_defined(src, period, k))
}

/// Whether position `i` of the Hull average of `period` is computed from
/// defined readings alone.
pub open spec fn hull_defined(src: Seq<bool>, period: nat, i: int) -> bool {
    window_fits(src.len(), period) && window_defined(hull_raw(src, period), smoothing_of(period), i)
}

/// Whether `mask` marks the positions of the weighted average of `period`
/// over `src` that are computed from defined readings alone.
pub open spec fn is_wma_mask(mask: Seq<bool>, src: Seq<bool>, period: nat) -> bool {
    &&& mask.len() == src.len()
    &&& forall|i: int| 0 <= i < mask.len() ==> #[trigger] mask[i] == window_defined(src, period, i)
}

/// Whether `mask` marks the positions of the Hull average of `period` over
/// `src` that are computed from defined readings alone.
pub open spec fn is_hull_mask(mask: Seq<bool>, src: Seq<bool>, period: nat) -> bool {
    &&& mask.len() == src.len()
    &&& forall|i: int| 0 <= i < mask.len() ==> #[trigger] mask[i] == hull_defined(src, period, i)
}

/// Whether every reading of `src` is defined.
pub open spec fn all_defined(src: Seq<bool>) -> bool {
    forall|k: int| 0 <= k < src.len() ==> #[trigger] src[k]
}

/// The weighted average is undefined before its first full window, and from
/// there on defined wherever its window holds defined readings only. Over
/// readings that are all defined its undefined prefix is exactly the first
/// `period - 1` positions.
pub proof fn lemma_wma_prefix(src: Seq<bool>, period: nat, i: int)
    requires
        0 <= i < src.len(),
    ensures
        i < first_computed(src.len(), period) ==> !window_defined(src, period, i),
        window_fits(src.len(), period) && i < period - 1 ==> !window_defined(src, period, i),
        all_defined(src) && i >= first_computed(src.len(), period) ==> window_defined(
            src,
            period,
            i,
        ),
{
}

/// With a period of one the weighted average is defined exactly where its
/// reading is, and its window holds that reading alone, at weight one out of
/// a total of one.
pub proof fn lemma_wma_unit_period(src: Seq<bool>, i: int)
    requires
        0 <= i < src.len(),
    ensures
        window_defined(src, 1, i) == src[i],
        first_computed(src.len(), 1) == 0,
        weight_sum(1, 1) == 1,
{
    reveal_with_fuel(weight_sum, 2);
    if src[i] {
        assert forall|k: int| i - 1 < k <= i implies #[trigger] src[k] by {
            assert(k == i);
        }
    }
}

/// Wherever the Hull average is defined, so is the weighted average of the
/// same period: the undefined prefix of the first is at least that of the
/// second.
pub proof fn lemma_hull_within_wma(src: Seq<bool>, period: nat, i: int)
    requires
        0 <= i < src.len(),
        hull_defined(src, period, i),
    ensures
        window_defined(src, period, i),
        window_defined(src, half_of(period), i),
{
    let raw = hull_raw(src, period);
    assert(raw[i]);
}

/// The Hull average is undefined on its whole lead, and over readings that
/// are all defined it is defined everywhere after it.
pub proof fn lemma_hull_prefix(src: Seq<bool>, period: nat, i: int)
    requires
        0 <= i < src.len(),
    ensures
        i < hull_lead(src.len(), period) ==> !hull_defined(src, period, i),
        all_defined(src) && i >= hull_lead(src.len(), period) ==> hull_defined(src, period, i),
{
    let n = src.len();
    let raw = hull_raw(src, period);
    let smooth = smoothing_of(period);
    let fast = first_computed(n, half_of(period));
    let slow = first_computed(n, period);
    let raw_lead = if fast >= slow { fast } else { slow };
    if i < hull_lead(n, period) && hull_defined(src, period, i) {
        let k = i - smooth + 1;
        assert(raw[k]);
        assert(window_defined(src, half_of(period), k));
        assert(window_defined(src, period, k));
        assert(k >= raw_lead);
        assert(false);
    }
    if all_defined(src) && i >= hull_lead(n, period) {
        assert(window_fits(n, period));
        assert(window_fits(n, smooth));
        assert(i >= raw_lead + smooth - 1);
        assert forall|k: int| i - smooth < k <= i implies #[trigger] raw[k] by {
            assert(k >= raw_lead);
            assert(window_defined(src, half_of(period), k));
            assert(window_defined(src, period, k));
        }
    }
}

/// Two masks of the weighted average of one series and period are equal,
/// and so are two masks of its Hull average.
pub proof fn lemma_masks_unique(a: Seq<bool>, b: Seq<bool>, src: Seq<bool>, period: nat)
    requires
        is_wma_mask(a, src, period) && is_wma_mask(b, src, period) || is_hull_mask(a, src, period)
            && is_hull_mask(b, src, period),
    ensures
        a == b,
{
    assert(a =~= b);
}

/// The stage periods of the Hull average of `period` over `n` readings; none
/// when no window of `period` fits, and the average is undefined throughout.
pub fn hullma_stages(n: usize, period: usize) -> (stages: Option<HullStages>)
    ensures
        !window_fits(n as nat, period as nat) ==> stages is None,
        window_fits(n as nat, period as nat) ==> stages == Some(
            HullStages {
                fast: half_of(period as nat) as usize,
                slow: period,
                smooth: smoothing_of(period as nat) as usize,
            },
        ),
        stages matches Some(s) ==> s.fast >= 2 && s.smooth >= 2 && s.fast == half_of(period as nat)
            && s.smooth == smoothing_of(period as nat),
{
    if !has_window(n, period) {
        None
    } else {
        Some(
            HullStages {
                fast: half_period(period),
                slow: period,
                smooth: smoothing_period(period),
            },
        )
    }
}

/// Marks the positions of the weighted average of `period` that are computed
/// from defined readings alone, given which readings are defined.
pub fn window_mask(src: &Vec<bool>, period: usize) -> (out: Vec<bool>)
    ensures
        is_wma_mask(out@, src@, period as nat),
{
    let n: usize = src.len();
    let mut out: Vec<bool> = Vec::new();
    let mut run: usize = 0;
    let mut i: usize = 0;
    while i < n
        invariant
            n == src.len(),
            i <= n,
            out.len() == i,
            run <= i,
            forall|k: int| i - run <= k < i ==> #[trigger] src[k],
            run < i ==> !src[i - run - 1],
            forall|k: int|
                0 <= k < i ==> #[trigger] out[k] == window_defined(src@, period as nat, k),
        decreases n - i,
    {
        if src[i] {
            run = run + 1;
        } else {
            run = 0;
        }
        let covered: bool = period != 0 && run >= period;
        proof {
            if !covered && period != 0 && run <= i {
                assert(!src[i - run]);
                assert(i - period < i - run <= i);
            }
        }
        out.push(covered);
        i = i + 1;
    }
    out
}

/// Marks the positions of the Hull average of `period` that are computed
/// from defined readings alone, given which readings are defined.
pub fn hull_mask(src: &Vec<bool>, period: usize) -> (out: Vec<bool>)
    ensures
        is_hull_mask(out@, src@, period as nat),
{
    let n: usize = src.len();
    match hullma_stages(n, period) {
        None => {
            let mut out: Vec<bool> = Vec::new();
            let mut i: usize = 0;
            while i < n
                invariant
                    i <= n,
                    out.len() == i,
                    forall|k: int| 0 <= k < i ==> !(#[trigger] out[k]),
                decreases n - i,
            {
                out.push(false);
                i = i + 1;
            }
            out
        },
        Some(stages) => {
            let fast = window_mask(src, stages.fast);
            let slow = window_mask(src, stages.slow);
            let mut raw: Vec<bool> = Vec::new();
            let mut i: usize = 0;
            while i < n
                invariant
                    n == src.len(),
                    fast.len() == n,
                    slow.len() == n,
                    i <= n,
                    raw.len() == i,
                    forall|k: int| 0 <= k < i ==> #[trigger] raw[k] == (fast[k] && slow[k]),
                decreases n - i,
            {
                raw.push(fast[i] && slow[i]);
                i = i + 1;
            }
            assert(raw@ =~= hull_raw(src@, period as nat));
            window_mask(&raw, stages.smooth)
        },
    }
}

/// Marks the positions of the weighted average of `period` over `prices`
/// that are computed from defined readings alone: those from `period - 1` on
/// whose window holds no undefined reading, and none when no window fits.
pub fn wma(prices: &Vec<Option<i64>>, period: usize) -> (out: Vec<bool>)
    ensures
        is_wma_mask(out@, defined_mask(prices@), period as nat),
        out.len() == prices.len(),
{
    let src = defined(prices);
    window_mask(&src, period)
}

/// Marks the positions of the Hull average of `period` over `prices` that are
/// computed from defined readings alone, and none when no window of `period`
/// fits.
pub fn hullma(prices: &Vec<Option<i64>>, period: usize) -> (out: Vec<bool>)
    ensures
        is_hull_mask(out@, defined_mask(prices@), period as nat),
        out.len() == prices.len(),
{
    let src = defined(prices);
    hull_mask(&src, period)
}

} // verus!
