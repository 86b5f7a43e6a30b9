//! Window planning for rolling technical-analysis indicators: the integer
//! side of weighted and Hull moving averages, Ichimoku lines, Hull signals,
//! the exponential average and the average true range.
//!
//! The library decides everything about these indicators that is not
//! arithmetic on doubles: whether a window fits, which periods a Hull average
//! derives, which readings a rolling midpoint is taken from, which candidate
//! a true range is, which rule fills a position, which positions are
//! undefined, and how the newest readings compare. Its caller holds the
//! doubles and does the arithmetic that the plans call for.

pub mod hull;
pub mod hull_signals;
pub mod ichimoku;
pub mod ichimoku_hull;
pub mod indicators;
pub mod periods;
pub mod rank;
