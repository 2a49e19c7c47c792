//! Protocol-wide bounds and scales.

use vstd::prelude::*;

verus! {

/// Shortest lock that can be opened: seven days, in seconds.
pub const MIN_LOCK_DURATION: i64 = 7 * 24 * 60 * 60;

/// Longest lock, and the longest a decay window may ever be: four years of
/// 365 days, in seconds.
pub const MAX_LOCK_DURATION: i64 = 4 * 365 * 24 * 60 * 60;

/// The multiplier that a protocol is usually set up to grant at the longest
/// lock, over a denominator of one.
pub const MAX_LOCK_MULTIPLIER: u64 = 4;

/// Fixed-point scale of the fee accumulator.
pub const FEE_PRECISION: u128 = 1_000_000_000_000_000_000;

} // verus!
