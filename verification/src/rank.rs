//! Readings as the planning layer sees them, and the checks on series shape.
//!
//! A reading is an `Option<i64>`: `None` for an undefined reading, `Some(r)`
//! for a defined one, where `r` is its rank. Ranks keep the order of the
//! values they stand for, equal values share one rank, and rank 0 stands for
//! the value zero. Comparisons against an undefined reading never hold.
//!
//! A reading is taken from the 64 bits of a double: the top bit is the sign,
//! the other 63 the magnitude. A magnitude above that of infinity is not a
//! number; every other double ranks by its magnitude, negated under the sign
//! bit, so that both zeros rank 0.
use vstd::prelude::*;

verus! {

/// The sign bit of a double.
pub const SIGN_BIT: u64 = 0x8000_0000_0000_0000;

/// The magnitude bits of infinity, the largest magnitude that is a number.
pub const INFINITY_BITS: u64 = 0x7ff0_0000_0000_0000;

/// The 63 magnitude bits of a double.
pub open spec fn magnitude_of(bits: u64) -> int {
    if bits >= SIGN_BIT {
        bits - SIGN_BIT
    } else {
        bits as int
    }
}

/// The reading that the bits of a double stand for.
pub open spec fn rank_of(bits: u64) -> Option<i64> {
    if magnitude_of(bits) > INFINITY_BITS {
        None
    } else if bits >= SIGN_BIT {
        Some((-magnitude_of(bits)) as i64)
    } else {
        Some(magnitude_of(bits) as i64)
    }
}

/// Whether `readings` holds the reading of each of `bits`, in order.
pub open spec fn are_ranks(readings: Seq<Option<i64>>, bits: Seq<u64>) -> bool {
    &&& readings.len() == bits.len()
    &&& forall|i: int| 0 <= i < bits.len() ==> #[trigger] readings[i] == rank_of(bits[i])
}

/// The mask of a series: which of its readings are defined.
pub open spec fn defined_mask(readings: Seq<Option<i64>>) -> Seq<bool> {
    Seq::new(readings.len(), |i: int| readings[i] is Some)
}

/// Both zeros rank 0, nothing else does, and the two infinities rank last
/// on their side.
pub proof fn lemma_rank_of_zero(bits: u64)
    ensures
        rank_of(0) == Some(0i64),
        rank_of(SIGN_BIT) == Some(0i64),
        rank_of(bits) == Some(0i64) ==> bits == 0 || bits == SIGN_BIT,
        rank_of(bits) matches Some(r) ==> -INFINITY_BITS <= r <= INFINITY_BITS,
        rank_of(INFINITY_BITS) == Some(0x7ff0_0000_0000_0000i64),
        rank_of((INFINITY_BITS + SIGN_BIT) as u64) == Some(-0x7ff0_0000_0000_0000i64),
{
}

/// Flipping the sign bit negates the rank and keeps what is not a number.
pub proof fn lemma_rank_mirrors(bits: u64, flipped: u64)
    requires
        magnitude_of(bits) == magnitude_of(flipped),
        (bits >= SIGN_BIT) != (flipped >= SIGN_BIT),
    ensures
        rank_of(bits) is None <==> rank_of(flipped) is None,
        rank_of(bits) matches Some(r) ==> rank_of(flipped) == Some((-r) as i64),
{
}

/// Two doubles of one rank are the same double, or the two zeros.
pub proof fn lemma_rank_tells_apart(a: u64, b: u64)
    requires
        rank_of(a) is Some,
        rank_of(a) == rank_of(b),
    ensures
        a == b || magnitude_of(a) == 0 && magnitude_of(b) == 0,
{
}

/// Doubles of one sign rank as their magnitudes do: upwards without the
/// sign bit, downwards with it; and none with the sign bit ranks above one
/// without.
pub proof fn lemma_rank_keeps_order(a: u64, b: u64)
    requires
        rank_of(a) is Some,
        rank_of(b) is Some,
    ensures
        a < SIGN_BIT && b < SIGN_BIT ==> (exceeds(rank_of(a), rank_of(b)) <==> a > b),
        a >= SIGN_BIT && b >= SIGN_BIT ==> (exceeds(rank_of(a), rank_of(b)) <==> a < b),
        a >= SIGN_BIT && b < SIGN_BIT ==> !exceeds(rank_of(a), rank_of(b)),
{
}

/// Two series that must run in step have different lengths.
#[derive(Debug, Clone, Copy, PartialEq, Eq, Structural)]
pub struct ShapeMismatch {
    /// Length of the series that sets the pace.
    pub expected: usize,
    /// Length of the first series that departs from it.
    pub found: usize,
}

/// `a` is strictly above `b`; false when either is undefined.
pub open spec fn exceeds(a: Option<i64>, b: Option<i64>) -> bool {
    a is Some && b is Some && a->0 > b->0
}

/// `a` is at least `b`; false when either is undefined.
pub open spec fn reaches(a: Option<i64>, b: Option<i64>) -> bool {
    a is Some && b is Some && a->0 >= b->0
}

/// The reading that the bits of a double stand for.
pub fn rank_of_bits(bits: u64) -> (reading: Option<i64>)
    ensures
        reading == rank_of(bits),
{
    let negative: bool = bits >= SIGN_BIT;
    let magnitude: u64 = if negative { bits - SIGN_BIT } else { bits };
    if magnitude > INFINITY_BITS {
        None
    } else if negative {
        Some(-(magnitude as i64))
    } else {
        Some(magnitude as i64)
    }
}

/// The readings of a series of doubles, given by their bits.
pub fn ranks_of_bits(bits: &Vec<u64>) -> (readings: Vec<Option<i64>>)
    ensures
        are_ranks(readings@, bits@),
{
    let mut readings: Vec<Option<i64>> = Vec::new();
    let mut i: usize = 0;
    while i < bits.len()
        invariant
            i <= bits.len(),
            readings.len() == i,
            forall|k: int| 0 <= k < i ==> #[trigger] readings[k] == rank_of(bits[k]),
        decreases bits.len() - i,
    {
        readings.push(rank_of_bits(bits[i]));
        i = i + 1;
    }
    readings
}

/// Marks the readings of a series that are defined.
pub fn defined(readings: &Vec<Option<i64>>) -> (mask: Vec<bool>)
    ensures
        mask@ == defined_mask(readings@),
{
    let mut mask: Vec<bool> = Vec::new();
    let mut i: usize = 0;
    while i < readings.len()
        invariant
            i <= readings.len(),
            mask.len() == i,
            forall|k: int| 0 <= k < i ==> #[trigger] mask[k] == (readings[k] is Some),
        decreases readings.len() - i,
    {
        mask.push(readings[i].is_some());
        i = i + 1;
    }
    assert(mask@ =~= defined_mask(readings@));
    mask
}

/// Tests whether `a` is strictly above `b`.
pub fn is_above(a: Option<i64>, b: Option<i64>) -> (above: bool)
    ensures
        above == exceeds(a, b),
{
    match (a, b) {
        (Some(x), Some(y)) => x > y,
        _ => false,
    }
}

/// Tests whether `a` is at least `b`.
pub fn is_at_least(a: Option<i64>, b: Option<i64>) -> (holds: bool)
    ensures
        holds == reaches(a, b),
{
    match (a, b) {
        (Some(x), Some(y)) => x >= y,
        _ => false,
    }
}

/// The common length of two series that must run in step.
pub fn paired_len(first: usize, second: usize) -> (checked: Result<usize, ShapeMismatch>)
    ensures
        first == second ==> checked == Ok::<usize, ShapeMismatch>(first),
        first != second ==> checked == Err::<usize, ShapeMismatch>(
            ShapeMismatch { expected: first, found: second },
        ),
{
    if first == second {
        Ok(first)
    } else {
        Err(ShapeMismatch { expected: first, found: second })
    }
}

} // verus!
