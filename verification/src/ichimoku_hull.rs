//! The Hull-smoothed Ichimoku lines: which positions of each line of the
//! cloud are computed from defined readings alone.
use vstd::prelude::*;
use crate::hull::{hull_mask, is_hull_mask};
use crate::rank::{defined, defined_mask, paired_len, ShapeMismatch};

verus! {

/// Which positions of the four lines of the Hull-smoothed cloud are defined.
#[derive(Debug)]
pub struct HullCloudMask {
    /// The conversion line.
    pub tenkan: Vec<bool>,
    /// The base line.
    pub kijun: Vec<bool>,
    /// The first leading span, the average of the conversion and base lines.
    pub senkou_a: Vec<bool>,
    /// The second leading span.
    pub senkou_b: Vec<bool>,
}

/// The bar midpoints that are defined: those whose high and low both are.
pub open spec fn median_mask(high: Seq<bool>, low: Seq<bool>) -> Seq<bool> {
    Seq::new(high.len(), |i: int| high[i] && low[i])
}

/// Whether `mask` marks the defined positions of the Hull-smoothed line of
/// `period` over the bars of `high` and `low`.
pub open spec fn is_hull_line(
    mask: Seq<bool>,
    high: Seq<Option<i64>>,
    low: Seq<Option<i64>>,
    period: nat,
) -> bool {
    is_hull_mask(mask, median_mask(defined_mask(high), defined_mask(low)), period)
}

/// Whether `both` marks the positions that `first` and `second` both mark.
pub open spec fn is_overlap(both: Seq<bool>, first: Seq<bool>, second: Seq<bool>) -> bool {
    &&& both.len() == first.len()
    &&& forall|i: int| 0 <= i < both.len() ==> #[trigger] both[i] == (first[i] && second[i])
}

/// Two masks that both mark one Hull-smoothed line are equal.
pub proof fn lemma_hull_line_unique(
    a: Seq<bool>,
    b: Seq<bool>,
    high: Seq<Option<i64>>,
    low: Seq<Option<i64>>,
    period: nat,
)
    requires
        is_hull_line(a, high, low, period),
        is_hull_line(b, high, low, period),
    ensures
        a == b,
{
    assert(a =~= b);
}

/// Two masks that both mark the overlap of one pair of masks are equal.
pub proof fn lemma_overlap_unique(a: Seq<bool>, b: Seq<bool>, first: Seq<bool>, second: Seq<bool>)
    requires
        is_overlap(a, first, second),
        is_overlap(b, first, second),
    ensures
        a == b,
{
    assert(a =~= b);
}

/// Marks the positions that two masks of one length both mark.
pub fn overlap(first: &Vec<bool>, second: &Vec<bool>) -> (both: Vec<bool>)
    requires
        first.len() == second.len(),
    ensures
        is_overlap(both@, first@, second@),
{
    let n: usize = first.len();
    let mut both: Vec<bool> = Vec::new();
    let mut i: usize = 0;
    while i < n
        invariant
            n == first.len(),
            n == second.len(),
            i <= n,
            both.len() == i,
            forall|k: int| 0 <= k < i ==> #[trigger] both[k] == (first[k] && second[k]),
        decreases n - i,
    {
        both.push(first[i] && second[i]);
        i = i + 1;
    }
    both
}

/// Marks the defined positions of the Hull-smoothed line of `period`: the
/// Hull average of the bar midpoints. Fails when `high` and `low` differ in
/// length.
pub fn ichimoku_line_hull(high: &Vec<Option<i64>>, low: &Vec<Option<i64>>, period: usize) -> (marked:
    Result<Vec<bool>, ShapeMismatch>)
    ensures
        high.len() == low.len() ==> marked is Ok && is_hull_line(
            marked->Ok_0@,
            high@,
            low@,
            period as nat,
        ),
        high.len() != low.len() ==> marked == Err::<Vec<bool>, ShapeMismatch>(
            ShapeMismatch { expected: high.len(), found: low.len() },
        ),
{
    match paired_len(high.len(), low.len()) {
        Err(e) => Err(e),
        Ok(_) => {
            let high_mask = defined(high);
            let low_mask = defined(low);
            let median = overlap(&high_mask, &low_mask);
            assert(median@ =~= median_mask(defined_mask(high@), defined_mask(low@)));
            Ok(hull_mask(&median, period))
        },
    }
}

/// Marks the defined positions of the four lines of the Hull-smoothed cloud.
/// The first leading span is defined exactly where both the conversion and
/// the base line are. Fails when `high` and `low` differ in length.
pub fn ichimoku_components_hull(
    high: &Vec<Option<i64>>,
    low: &Vec<Option<i64>>,
    tenkan_period: usize,
    kijun_period: usize,
    senkou_period: usize,
) -> (marked: Result<HullCloudMask, ShapeMismatch>)
    ensures
        high.len() == low.len() ==> marked is Ok && is_hull_line(
            marked->Ok_0.tenkan@,
            high@,
            low@,
            tenkan_period as nat,
        ) && is_hull_line(marked->Ok_0.kijun@, high@, low@, kijun_period as nat) && is_hull_line(
            marked->Ok_0.senkou_b@,
            high@,
            low@,
            senkou_period as nat,
        ) && is_overlap(marked->Ok_0.senkou_a@, marked->Ok_0.tenkan@, marked->Ok_0.kijun@),
        high.len() != low.len() ==> marked is Err && marked->Err_0 == (ShapeMismatch {
            expected: high.len(),
            found: low.len(),
        }),
{
    let tenkan = match ichimoku_line_hull(high, low, tenkan_period) {
        Ok(line) => line,
        Err(e) => { return Err(e); },
    };
    let kijun = match ichimoku_line_hull(high, low, kijun_period) {
        Ok(line) => line,
        Err(e) => { return Err(e); },
    };
    let senkou_a = overlap(&tenkan, &kijun);
    let senkou_b = match ichimoku_line_hull(high, low, senkou_period) {
        Ok(line) => line,
        Err(e) => { return Err(e); },
    };
    Ok(HullCloudMask { tenkan, kijun, senkou_a, senkou_b })
}

} // verus!
