//! The time multiplier and the decay of voting power.

use crate::constants::{MAX_LOCK_DURATION, MIN_LOCK_DURATION};
use crate::error::ErrorCode;
use vstd::arithmetic::div_mod::{
    lemma_div_is_ordered, lemma_div_multiples_vanish, lemma_div_pos_is_pos,
};
use vstd::arithmetic::mul::{lemma_mul_inequality, lemma_mul_nonnegative};
use vstd::prelude::*;

verus! {

/// The reward multiplier of a lock that lasts `duration` seconds: the
/// denominator up to the shortest lock, the numerator from the longest lock
/// on, and the straight line between the two in between, rounded down.
pub open spec fn time_multiplier(duration: int, numerator: int, denominator: int) -> int {
    if duration >= MAX_LOCK_DURATION {
        numerator
    } else if duration <= MIN_LOCK_DURATION {
        denominator
    } else {
        denominator + (duration - MIN_LOCK_DURATION) * (numerator - denominator) / (
        MAX_LOCK_DURATION - MIN_LOCK_DURATION)
    }
}

/// Whether the multiplier range is negative where it is needed: strictly
/// between the two bounds the line runs over `numerator - denominator`.
pub open spec fn time_multiplier_underflows(duration: int, numerator: int, denominator: int) -> bool {
    MIN_LOCK_DURATION < duration < MAX_LOCK_DURATION && numerator < denominator
}

/// Between the bounds the interpolated step stays within the multiplier
/// range.
proof fn lemma_interpolation_bounds(offset: int, range: int, span: int)
    requires
        0 <= offset <= span,
        0 < span,
        0 <= range,
    ensures
        0 <= offset * range / span <= range,
{
    lemma_mul_nonnegative(offset, range);
    lemma_div_pos_is_pos(offset * range, span);
    lemma_mul_inequality(offset, span, range);
    lemma_div_is_ordered(offset * range, span * range, span);
    lemma_div_multiples_vanish(range, span);
}

/// Computes the multiplier of a lock of `lock_duration` seconds. The
/// product is taken in 128 bits, so the only step that can leave its type
/// is the multiplier range itself.
pub fn calculate_time_multiplier(lock_duration: i64, numerator: u64, denominator: u64) -> (result:
    Result<u64, ErrorCode>)
    ensures
        match result {
            Ok(multiplier) => {
                &&& !time_multiplier_underflows(
                    lock_duration as int,
                    numerator as int,
                    denominator as int,
                )
                &&& multiplier == time_multiplier(
                    lock_duration as int,
                    numerator as int,
                    denominator as int,
                )
            },
            Err(e) => {
                &&& e == ErrorCode::MathOverflow
                &&& time_multiplier_underflows(
                    lock_duration as int,
                    numerator as int,
                    denominator as int,
                )
            },
        },
{
    if lock_duration >= MAX_LOCK_DURATION {
        return Ok(numerator);
    }
    if lock_duration <= MIN_LOCK_DURATION {
        return Ok(denominator);
    }
    let duration_range: u128 = (MAX_LOCK_DURATION - MIN_LOCK_DURATION) as u128;
    let duration_offset: u128 = (lock_duration - MIN_LOCK_DURATION) as u128;
    let multiplier_range: u64 = match numerator.checked_sub(denominator) {
        Some(range) => range,
        None => {
            return Err(ErrorCode::MathOverflow);
        },
    };
    proof {
        lemma_interpolation_bounds(
            duration_offset as int,
            multiplier_range as int,
            duration_range as int,
        );
        assert(duration_offset * multiplier_range <= 0x800_0000 * 0x1_0000_0000_0000_0000)
            by (nonlinear_arith)
            requires
                0 <= duration_offset <= 0x800_0000,
                0 <= multiplier_range <= 0x1_0000_0000_0000_0000,
        ;
    }
    let step: u128 = duration_offset * (multiplier_range as u128) / duration_range;
    Ok(denominator + (step as u64))
}

/// The voting power that is left at `now` of a credit of `initial`, issued
/// for the window from `start` to `unlock`: all of it up to the start, none
/// of it from the unlock time on, and in between the share of the window
/// that is still to come, rounded down.
pub open spec fn ve_balance(initial: int, start: int, unlock: int, now: int) -> int {
    if now >= unlock {
        0
    } else if now <= start {
        initial
    } else {
        initial * (unlock - now) / (unlock - start)
    }
}

/// Whether the length of the decay window leaves the range of a timestamp
/// where it is needed, strictly inside the window.
pub open spec fn ve_balance_overflows(start: int, unlock: int, now: int) -> bool {
    start < now < unlock && unlock - start > i64::MAX
}

/// Computes the voting power that a position has at `current_time`.
pub fn calculate_current_ve_balance(
    initial_ve_amount: u64,
    lock_start_time: i64,
    unlock_time: i64,
    current_time: i64,
) -> (result: Result<u64, ErrorCode>)
    ensures
        match result {
            Ok(balance) => {
                &&& !ve_balance_overflows(
                    lock_start_time as int,
                    unlock_time as int,
                    current_time as int,
                )
                &&& balance == ve_balance(
                    initial_ve_amount as int,
                    lock_start_time as int,
                    unlock_time as int,
                    current_time as int,
                )
            },
            Err(e) => {
                &&& e == ErrorCode::MathOverflow
                &&& ve_balance_overflows(
                    lock_start_time as int,
                    unlock_time as int,
                    current_time as int,
                )
            },
        },
{
    if current_time >= unlock_time {
        return Ok(0);
    }
    if current_time <= lock_start_time {
        return Ok(initial_ve_amount);
    }
    let total_duration: i64 = match unlock_time.checked_sub(lock_start_time) {
        Some(duration) => duration,
        None => {
            return Err(ErrorCode::MathOverflow);
        },
    };
    let remaining_duration: i64 = unlock_time - current_time;
    proof {
        lemma_interpolation_bounds(
            remaining_duration as int,
            initial_ve_amount as int,
            total_duration as int,
        );
        assert(remaining_duration * initial_ve_amount == initial_ve_amount * remaining_duration)
            by (nonlinear_arith);
        assert(initial_ve_amount * remaining_duration <= 0x1_0000_0000_0000_0000
            * 0x8000_0000_0000_0000) by (nonlinear_arith)
            requires
                0 <= initial_ve_amount <= 0x1_0000_0000_0000_0000,
                0 <= remaining_duration <= 0x8000_0000_0000_0000,
        ;
    }
    let current_balance: u128 = (initial_ve_amount as u128) * (remaining_duration as u128) / (
    total_duration as u128);
    Ok(current_balance as u64)
}

/// The voting credit issued for `amount` of principal at `multiplier`: the
/// multiplier is a ratio over `denominator`, and the credit is rounded down.
pub open spec fn ve_amount(amount: int, multiplier: int, denominator: int) -> int {
    amount * multiplier / denominator
}

/// Whether the credit cannot be issued: the ratio has no divisor, or the
/// credit does not fit the 64 bits of an amount.
pub open spec fn ve_amount_overflows(amount: int, multiplier: int, denominator: int) -> bool {
    denominator == 0 || ve_amount(amount, multiplier, denominator) > u64::MAX
}

/// Computes the voting credit for `amount` of principal. The product is
/// taken in 128 bits, where it always fits; only the credit itself can be
/// too large.
pub fn calculate_ve_amount(amount: u64, multiplier: u64, denominator: u64) -> (result: Result<
    u64,
    ErrorCode,
>)
    ensures
        match result {
            Ok(credit) => {
                &&& !ve_amount_overflows(amount as int, multiplier as int, denominator as int)
                &&& credit == ve_amount(amount as int, multiplier as int, denominator as int)
            },
            Err(e) => {
                &&& e == ErrorCode::MathOverflow
                &&& ve_amount_overflows(amount as int, multiplier as int, denominator as int)
            },
        },
{
    if denominator == 0 {
        return Err(ErrorCode::MathOverflow);
    }
    proof {
        assert(amount * multiplier <= 0xffff_ffff_ffff_ffff * 0xffff_ffff_ffff_ffff)
            by (nonlinear_arith)
            requires
                0 <= amount <= 0xffff_ffff_ffff_ffff,
                0 <= multiplier <= 0xffff_ffff_ffff_ffff,
        ;
    }
    let credit: u128 = (amount as u128) * (multiplier as u128) / (denominator as u128);
    if credit > u64::MAX as u128 {
        return Err(ErrorCode::MathOverflow);
    }
    Ok(credit as u64)
}

/// The unlock time of two locks merged into one: the average of the two
/// unlock times, each weighted by its principal, rounded down.
pub open spec fn merged_unlock_time(
    old_amount: int,
    old_unlock: int,
    amount: int,
    new_unlock: int,
) -> int {
    (old_amount * old_unlock + amount * new_unlock) / (old_amount + amount)
}

/// Whether the merge cannot be computed in the unsigned wide type: one of
/// the timestamps is negative, or there is no principal to weigh by.
pub open spec fn merged_unlock_time_overflows(
    old_amount: int,
    old_unlock: int,
    amount: int,
    new_unlock: int,
) -> bool {
    old_unlock < 0 || new_unlock < 0 || old_amount + amount == 0
}

/// A weighted average lies between any bounds that hold both of its terms.
pub proof fn lemma_merged_unlock_time_bounds(
    old_amount: int,
    old_unlock: int,
    amount: int,
    new_unlock: int,
    low: int,
    high: int,
)
    requires
        0 <= old_amount,
        0 <= amount,
        0 < old_amount + amount,
        low <= old_unlock <= high,
        low <= new_unlock <= high,
    ensures
        low <= merged_unlock_time(old_amount, old_unlock, amount, new_unlock) <= high,
{
    let total = old_amount + amount;
    let weight = old_amount * old_unlock + amount * new_unlock;
    assert(total * low <= weight <= total * high) by (nonlinear_arith)
        requires
            total == old_amount + amount,
            weight == old_amount * old_unlock + amount * new_unlock,
            0 <= old_amount,
            0 <= amount,
            low <= old_unlock <= high,
            low <= new_unlock <= high,
    ;
    lemma_div_is_ordered(total * low, weight, total);
    lemma_div_is_ordered(weight, total * high, total);
    lemma_div_multiples_vanish(low, total);
    lemma_div_multiples_vanish(high, total);
}

/// Computes the unlock time of a lock of `old_amount` until `old_unlock`
/// topped up by `amount` until `new_unlock`. Products and sum are taken in
/// 128 bits, where they always fit.
pub fn calculate_merged_unlock_time(
    old_amount: u64,
    old_unlock: i64,
    amount: u64,
    new_unlock: i64,
) -> (result: Result<i64, ErrorCode>)
    ensures
        match result {
            Ok(unlock) => {
                &&& !merged_unlock_time_overflows(
                    old_amount as int,
                    old_unlock as int,
                    amount as int,
                    new_unlock as int,
                )
                &&& unlock == merged_unlock_time(
                    old_amount as int,
                    old_unlock as int,
                    amount as int,
                    new_unlock as int,
                )
            },
            Err(e) => {
                &&& e == ErrorCode::MathOverflow
                &&& merged_unlock_time_overflows(
                    old_amount as int,
                    old_unlock as int,
                    amount as int,
                    new_unlock as int,
                )
            },
        },
{
    if old_unlock < 0 || new_unlock < 0 {
        return Err(ErrorCode::MathOverflow);
    }
    let new_total: u128 = (old_amount as u128) + (amount as u128);
    if new_total == 0 {
        return Err(ErrorCode::MathOverflow);
    }
    proof {
        assert(old_amount * old_unlock <= 0xffff_ffff_ffff_ffff * 0x7fff_ffff_ffff_ffff)
            by (nonlinear_arith)
            requires
                0 <= old_amount <= 0xffff_ffff_ffff_ffff,
                0 <= old_unlock <= 0x7fff_ffff_ffff_ffff,
        ;
        assert(amount * new_unlock <= 0xffff_ffff_ffff_ffff * 0x7fff_ffff_ffff_ffff)
            by (nonlinear_arith)
            requires
                0 <= amount <= 0xffff_ffff_ffff_ffff,
                0 <= new_unlock <= 0x7fff_ffff_ffff_ffff,
        ;
        assert(0 <= old_amount * old_unlock) by (nonlinear_arith)
            requires
                0 <= old_amount,
                0 <= old_unlock,
        ;
        assert(0 <= amount * new_unlock) by (nonlinear_arith)
            requires
                0 <= amount,
                0 <= new_unlock,
        ;
        lemma_merged_unlock_time_bounds(
            old_amount as int,
            old_unlock as int,
            amount as int,
            new_unlock as int,
            0,
            i64::MAX as int,
        );
    }
    let old_weight: u128 = (old_amount as u128) * (old_unlock as u128);
    let new_weight: u128 = (amount as u128) * (new_unlock as u128);
    let total_weight: u128 = old_weight + new_weight;
    Ok((total_weight / new_total) as i64)
}

/// At the shortest lock the multiplier is the denominator, and at the
/// longest it is the numerator.
pub proof fn lemma_time_multiplier_at_bounds(numerator: int, denominator: int)
    ensures
        time_multiplier(MIN_LOCK_DURATION as int, numerator, denominator) == denominator,
        time_multiplier(MAX_LOCK_DURATION as int, numerator, denominator) == numerator,
{
}

/// Wherever the numerator is not below the denominator, the multiplier
/// lies between the two.
pub proof fn lemma_time_multiplier_range(duration: int, numerator: int, denominator: int)
    requires
        denominator <= numerator,
    ensures
        denominator <= time_multiplier(duration, numerator, denominator) <= numerator,
{
    if MIN_LOCK_DURATION < duration < MAX_LOCK_DURATION {
        lemma_interpolation_bounds(
            duration - MIN_LOCK_DURATION,
            numerator - denominator,
            MAX_LOCK_DURATION - MIN_LOCK_DURATION,
        );
    }
}

/// A longer lock never earns a smaller multiplier, wherever the numerator
/// is not below the denominator.
pub proof fn lemma_time_multiplier_monotonic(
    shorter: int,
    longer: int,
    numerator: int,
    denominator: int,
)
    requires
        shorter <= longer,
        denominator <= numerator,
    ensures
        time_multiplier(shorter, numerator, denominator) <= time_multiplier(
            longer,
            numerator,
            denominator,
        ),
{
    lemma_time_multiplier_range(shorter, numerator, denominator);
    lemma_time_multiplier_range(longer, numerator, denominator);
    if MIN_LOCK_DURATION < shorter && longer < MAX_LOCK_DURATION {
        let range = numerator - denominator;
        let span = MAX_LOCK_DURATION - MIN_LOCK_DURATION;
        lemma_mul_inequality(shorter - MIN_LOCK_DURATION, longer - MIN_LOCK_DURATION, range);
        lemma_div_is_ordered(
            (shorter - MIN_LOCK_DURATION) * range,
            (longer - MIN_LOCK_DURATION) * range,
            span,
        );
    }
}

/// No voting power is left at the unlock time.
pub proof fn lemma_ve_balance_at_unlock(initial: int, start: int, unlock: int)
    ensures
        ve_balance(initial, start, unlock, unlock) == 0,
{
}

/// At the start of a window that has not ended yet, all of the credit is
/// still there.
pub proof fn lemma_ve_balance_at_start(initial: int, start: int, unlock: int)
    requires
        start < unlock,
    ensures
        ve_balance(initial, start, unlock, start) == initial,
{
}

/// The voting power that is left never exceeds the credit and is never
/// negative.
pub proof fn lemma_ve_balance_range(initial: int, start: int, unlock: int, now: int)
    requires
        0 <= initial,
    ensures
        0 <= ve_balance(initial, start, unlock, now) <= initial,
{
    if start < now < unlock {
        lemma_interpolation_bounds(unlock - now, initial, unlock - start);
        assert((unlock - now) * initial == initial * (unlock - now)) by (nonlinear_arith);
    }
}

/// Voting power never grows as time advances.
pub proof fn lemma_ve_balance_monotonic(
    initial: int,
    start: int,
    unlock: int,
    earlier: int,
    later: int,
)
    requires
        0 <= initial,
        earlier <= later,
    ensures
        ve_balance(initial, start, unlock, later) <= ve_balance(initial, start, unlock, earlier),
{
    lemma_ve_balance_range(initial, start, unlock, earlier);
    lemma_ve_balance_range(initial, start, unlock, later);
    if start < earlier && later < unlock {
        lemma_mul_inequality(unlock - later, unlock - earlier, initial);
        assert((unlock - later) * initial == initial * (unlock - later)) by (nonlinear_arith);
        assert((unlock - earlier) * initial == initial * (unlock - earlier)) by (nonlinear_arith);
        lemma_div_is_ordered(
            initial * (unlock - later),
            initial * (unlock - earlier),
            unlock - start,
        );
    }
}

/// The multiplier is never negative where it can be computed.
pub proof fn lemma_time_multiplier_nonnegative(duration: int, numerator: int, denominator: int)
    requires
        0 <= numerator,
        0 <= denominator,
        !time_multiplier_underflows(duration, numerator, denominator),
    ensures
        0 <= time_multiplier(duration, numerator, denominator),
{
    if MIN_LOCK_DURATION < duration < MAX_LOCK_DURATION {
        lemma_time_multiplier_range(duration, numerator, denominator);
    }
}

/// The credit for a principal that is not negative, at a multiplier that is
/// not negative, is not negative.
pub proof fn lemma_ve_amount_nonnegative(amount: int, multiplier: int, denominator: int)
    requires
        0 <= amount,
        0 <= multiplier,
        0 < denominator,
    ensures
        0 <= ve_amount(amount, multiplier, denominator),
{
    lemma_mul_nonnegative(amount, multiplier);
    lemma_div_pos_is_pos(amount * multiplier, denominator);
}

} // verus!
