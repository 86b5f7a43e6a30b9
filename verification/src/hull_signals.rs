//! Signals read off the newest readings of a price series and its Hull
//! averages: trend, pullback and bounce.
use vstd::prelude::*;
use crate::rank::{exceeds, is_above, is_at_least, reaches};

verus! {

/// Direction that the newest readings of a short and a long Hull average
/// give: 1 when the short one is above, -1 when it is below, 0 when they are
/// level, when either is undefined, or when either series has fewer than two
/// readings.
pub open spec fn trend_of(short: Seq<Option<i64>>, long: Seq<Option<i64>>) -> int {
    if short.len() < 2 || long.len() < 2 {
        0
    } else if exceeds(short.last(), long.last()) {
        1
    } else if exceeds(long.last(), short.last()) {
        -1
    } else {
        0
    }
}

/// Whether the distance of the newest price from the newest Hull reading can
/// be measured: both series are non-empty, both readings are defined, and
/// the Hull reading is above zero.
pub open spec fn pullback_measurable(prices: Seq<Option<i64>>, hull: Seq<Option<i64>>) -> bool {
    &&& prices.len() > 0
    &&& hull.len() > 0
    &&& prices.last() is Some
    &&& exceeds(hull.last(), Some(0i64))
}

/// The pullback decision: none where the distance cannot be measured, else
/// whether the distance ratio stays within the threshold.
pub open spec fn pullback_of(
    prices: Seq<Option<i64>>,
    hull: Seq<Option<i64>>,
    ratio: Option<i64>,
    threshold: Option<i64>,
) -> Option<bool> {
    if pullback_measurable(prices, hull) {
        Some(reaches(threshold, ratio))
    } else {
        None
    }
}

/// `a` is strictly below the negation of `b`; false when either is
/// undefined. Negating a reading negates its rank.
pub open spec fn undercuts(a: Option<i64>, b: Option<i64>) -> bool {
    a is Some && b is Some && a->0 < -b->0
}

/// The bounce decision over `count` prices: none with fewer than two, else
/// whether the newest return is above the threshold, and whether it is below
/// the threshold's negation.
pub open spec fn bounce_of(count: nat, recent_return: Option<i64>, threshold: Option<i64>)
    -> Option<(bool, bool)> {
    if count < 2 {
        None
    } else {
        Some((exceeds(recent_return, threshold), undercuts(recent_return, threshold)))
    }
}

/// Swapping the two averages turns the trend round.
pub proof fn lemma_trend_reverses(short: Seq<Option<i64>>, long: Seq<Option<i64>>)
    ensures
        trend_of(long, short) == -trend_of(short, long),
        -1 <= trend_of(short, long) <= 1,
{
}

/// Two averages whose newest readings are equal, or one of which has fewer
/// than two readings, give no trend.
pub proof fn lemma_trend_neutral(short: Seq<Option<i64>>, long: Seq<Option<i64>>)
    requires
        short.len() < 2 || long.len() < 2 || short.last() == long.last() || short.last() is None
            || long.last() is None,
    ensures
        trend_of(short, long) == 0,
{
}

/// With a threshold that is not negative, or is undefined, a bounce is never
/// both up and down.
pub proof fn lemma_bounce_one_way(count: nat, recent_return: Option<i64>, threshold: Option<i64>)
    requires
        threshold matches Some(t) ==> t >= 0,
    ensures
        bounce_of(count, recent_return, threshold) matches Some(flags) ==> !(flags.0 && flags.1),
{
}

/// Classifies the trend from the newest readings of a short and a long Hull
/// average.
pub fn hullma_trend(hullma_short: &Vec<Option<i64>>, hullma_long: &Vec<Option<i64>>) -> (trend:
    i32)
    ensures
        trend == trend_of(hullma_short@, hullma_long@),
{
    if hullma_short.len() < 2 || hullma_long.len() < 2 {
        return 0;
    }
    let current_short: Option<i64> = hullma_short[hullma_short.len() - 1];
    let current_long: Option<i64> = hullma_long[hullma_long.len() - 1];
    if is_above(current_short, current_long) {
        1
    } else if is_above(current_long, current_short) {
        -1
    } else {
        0
    }
}

/// Decides a pullback: `ratio` is the distance of the newest price from the
/// newest Hull reading, taken relative to that reading. The decision is none
/// where that distance cannot be measured.
pub fn hullma_pullback(
    prices: &Vec<Option<i64>>,
    hullma_long: &Vec<Option<i64>>,
    ratio: Option<i64>,
    threshold: Option<i64>,
) -> (decision: Option<bool>)
    ensures
        decision == pullback_of(prices@, hullma_long@, ratio, threshold),
{
    if prices.len() == 0 || hullma_long.len() == 0 {
        return None;
    }
    let current_price: Option<i64> = prices[prices.len() - 1];
    let current_hullma: Option<i64> = hullma_long[hullma_long.len() - 1];
    if current_price.is_none() || !is_above(current_hullma, Some(0)) {
        return None;
    }
    Some(is_at_least(threshold, ratio))
}

/// Tests whether `a` is strictly below the negation of `b`.
pub fn is_below_negated(a: Option<i64>, b: Option<i64>) -> (below: bool)
    ensures
        below == undercuts(a, b),
{
    match (a, b) {
        (Some(x), Some(y)) => (x as i128) < -(y as i128),
        _ => false,
    }
}

/// Decides a bounce over `count` prices from the newest return: up when the
/// return is above the threshold, down when it is below its negation.
pub fn hullma_bounce(count: usize, recent_return: Option<i64>, threshold: Option<i64>) -> (decision:
    Option<(bool, bool)>)
    ensures
        decision == bounce_of(count as nat, recent_return, threshold),
{
    if count < 2 {
        return None;
    }
    Some((is_above(recent_return, threshold), is_below_negated(recent_return, threshold)))
}

} // verus!
