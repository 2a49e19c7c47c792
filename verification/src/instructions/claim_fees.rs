//! Claiming the fees that a position has earned since its last settlement.

use crate::constants::FEE_PRECISION;
use crate::error::ErrorCode;
use crate::state::{GlobalState, UserLock};
use crate::utils::{
    calculate_current_ve_balance, lemma_ve_balance_monotonic, lemma_ve_balance_range, ve_balance,
    ve_balance_overflows,
};
use vstd::arithmetic::div_mod::{
    lemma_div_is_ordered, lemma_div_pos_is_pos, lemma_fundamental_div_mod,
};
use vstd::arithmetic::mul::{lemma_mul_inequality, lemma_mul_nonnegative};
use vstd::prelude::*;

verus! {

/// The voting power of the position at `current_time`.
pub open spec fn current_ve_balance(user_lock: UserLock, current_time: i64) -> int {
    ve_balance(
        user_lock.initial_ve_amount as int,
        user_lock.lock_start_time as int,
        user_lock.unlock_time as int,
        current_time as int,
    )
}

/// The fees that the position has earned and not been paid: its current
/// voting power times what the accumulator has gained since the last
/// settlement, scaled back and rounded down.
pub open spec fn pending_fees(
    global_state: GlobalState,
    user_lock: UserLock,
    current_time: i64,
) -> int {
    current_ve_balance(user_lock, current_time) * (global_state.cumulative_fee_per_ve_token
        - user_lock.fee_debt) / (FEE_PRECISION as int)
}

/// Whether the share leaves the range of its type on the way: the position
/// is settled past the accumulator, the product does not fit 128 bits, or
/// the share does not fit the 64 bits of an amount.
pub open spec fn share_overflows(
    global_state: GlobalState,
    user_lock: UserLock,
    current_time: i64,
) -> bool {
    ||| global_state.cumulative_fee_per_ve_token < user_lock.fee_debt
    ||| current_ve_balance(user_lock, current_time) * (global_state.cumulative_fee_per_ve_token
        - user_lock.fee_debt) > u128::MAX
    ||| pending_fees(global_state, user_lock, current_time) > u64::MAX
}

/// Why the claim is refused, if it is: the first of these that applies.
pub open spec fn rejection(
    global_state: GlobalState,
    user_lock: UserLock,
    current_time: i64,
) -> Option<ErrorCode> {
    if user_lock.is_closed() {
        Some(ErrorCode::NoExistingLock)
    } else if ve_balance_overflows(
        user_lock.lock_start_time as int,
        user_lock.unlock_time as int,
        current_time as int,
    ) {
        Some(ErrorCode::MathOverflow)
    } else if current_ve_balance(user_lock, current_time) == 0 {
        Some(ErrorCode::NoVotingPower)
    } else if share_overflows(global_state, user_lock, current_time) {
        Some(ErrorCode::MathOverflow)
    } else if pending_fees(global_state, user_lock, current_time) == 0 {
        Some(ErrorCode::NoFeesToClaim)
    } else if user_lock.fees_claimed + pending_fees(global_state, user_lock, current_time)
        > u64::MAX {
        Some(ErrorCode::MathOverflow)
    } else {
        None
    }
}

/// The position after a claim that is not refused: settled at the ledger's
/// accumulator, so that the same fees are never paid twice.
pub open spec fn lock_after(
    global_state: GlobalState,
    user_lock: UserLock,
    current_time: i64,
) -> UserLock {
    UserLock {
        fees_claimed: (user_lock.fees_claimed + pending_fees(
            global_state,
            user_lock,
            current_time,
        )) as u64,
        fee_debt: global_state.cumulative_fee_per_ve_token,
        ..user_lock
    }
}

/// Settles the fees of a position at `current_time`.
///
/// On success the position is updated and the amount to pay is returned,
/// which is never zero; the caller pays it out of the fee vault. On refusal
/// the position does not change. The ledger is only read.
pub fn handler(global_state: &GlobalState, user_lock: &mut UserLock, current_time: i64) -> (result:
    Result<u64, ErrorCode>)
    ensures
        match result {
            Ok(paid) => {
                &&& rejection(*global_state, *old(user_lock), current_time) is None
                &&& paid == pending_fees(*global_state, *old(user_lock), current_time)
                &&& paid > 0
                &&& *final(user_lock) == lock_after(*global_state, *old(user_lock), current_time)
            },
            Err(e) => {
                &&& rejection(*global_state, *old(user_lock), current_time) == Some(e)
                &&& *final(user_lock) == *old(user_lock)
            },
        },
{
    if user_lock.locked_amount == 0 {
        return Err(ErrorCode::NoExistingLock);
    }
    let current_ve_balance = calculate_current_ve_balance(
        user_lock.initial_ve_amount,
        user_lock.lock_start_time,
        user_lock.unlock_time,
        current_time,
    )?;
    if current_ve_balance == 0 {
        return Err(ErrorCode::NoVotingPower);
    }
    let cumulative_fee_per_ve_token = global_state.cumulative_fee_per_ve_token;
    let fee_gain = match cumulative_fee_per_ve_token.checked_sub(user_lock.fee_debt) {
        Some(difference) => difference,
        None => {
            return Err(ErrorCode::MathOverflow);
        },
    };
    let scaled_fees = match (current_ve_balance as u128).checked_mul(fee_gain) {
        Some(product) => product,
        None => {
            return Err(ErrorCode::MathOverflow);
        },
    };
    let wide_fees: u128 = scaled_fees / FEE_PRECISION;
    if wide_fees > u64::MAX as u128 {
        return Err(ErrorCode::MathOverflow);
    }
    let pending_fees = wide_fees as u64;
    if pending_fees == 0 {
        return Err(ErrorCode::NoFeesToClaim);
    }
    let fees_claimed = match user_lock.fees_claimed.checked_add(pending_fees) {
        Some(sum) => sum,
        None => {
            return Err(ErrorCode::MathOverflow);
        },
    };

    user_lock.fee_debt = cumulative_fee_per_ve_token;
    user_lock.fees_claimed = fees_claimed;
    Ok(pending_fees)
}

/// The decay of a well-formed position: all of the credit at the start of
/// its window, none of it at the unlock time, never more as time advances,
/// and no time at which the window is too long to compute with.
pub proof fn lemma_position_decays(user_lock: UserLock, earlier: i64, later: i64)
    requires
        user_lock.wf(),
        earlier <= later,
    ensures
        current_ve_balance(user_lock, user_lock.lock_start_time) == user_lock.initial_ve_amount,
        current_ve_balance(user_lock, user_lock.unlock_time) == 0,
        current_ve_balance(user_lock, later) <= current_ve_balance(user_lock, earlier),
        0 <= current_ve_balance(user_lock, later),
        current_ve_balance(user_lock, earlier) <= user_lock.initial_ve_amount,
        !ve_balance_overflows(
            user_lock.lock_start_time as int,
            user_lock.unlock_time as int,
            earlier as int,
        ),
{
    lemma_ve_balance_monotonic(
        user_lock.initial_ve_amount as int,
        user_lock.lock_start_time as int,
        user_lock.unlock_time as int,
        earlier as int,
        later as int,
    );
    lemma_ve_balance_range(
        user_lock.initial_ve_amount as int,
        user_lock.lock_start_time as int,
        user_lock.unlock_time as int,
        earlier as int,
    );
    lemma_ve_balance_range(
        user_lock.initial_ve_amount as int,
        user_lock.lock_start_time as int,
        user_lock.unlock_time as int,
        later as int,
    );
}

/// A claim that is not refused pays something, and settles the position: a
/// second claim against the same ledger at the same time is refused for
/// want of fees, and at any other time it is refused as well.
pub proof fn lemma_second_claim_is_refused(
    global_state: GlobalState,
    user_lock: UserLock,
    current_time: i64,
    any_time: i64,
)
    requires
        rejection(global_state, user_lock, current_time) is None,
    ensures
        pending_fees(global_state, user_lock, current_time) > 0,
        rejection(
            global_state,
            lock_after(global_state, user_lock, current_time),
            current_time,
        ) == Some(ErrorCode::NoFeesToClaim),
        rejection(global_state, lock_after(global_state, user_lock, current_time), any_time)
            is Some,
{
    let settled = lock_after(global_state, user_lock, current_time);
    assert(current_ve_balance(settled, current_time) == current_ve_balance(
        user_lock,
        current_time,
    ));
    lemma_settled_position_has_nothing_pending(global_state, settled, current_time);
    lemma_settled_position_has_nothing_pending(global_state, settled, any_time);
}

/// A position whose fee debt stands at the ledger's accumulator has no fees
/// pending, at any time.
pub proof fn lemma_settled_position_has_nothing_pending(
    global_state: GlobalState,
    user_lock: UserLock,
    current_time: i64,
)
    requires
        user_lock.fee_debt == global_state.cumulative_fee_per_ve_token,
    ensures
        pending_fees(global_state, user_lock, current_time) == 0,
        !share_overflows(global_state, user_lock, current_time),
{
    let balance = current_ve_balance(user_lock, current_time);
    assert(balance * 0 == 0) by (nonlinear_arith);
}

/// The most that the position can be paid against this ledger, whenever it
/// claims: what its undecayed credit has earned since the last settlement.
pub open spec fn entitlement(global_state: GlobalState, user_lock: UserLock) -> int {
    user_lock.initial_ve_amount * (global_state.cumulative_fee_per_ve_token - user_lock.fee_debt)
        / (FEE_PRECISION as int)
}

/// Whenever a position claims, what is pending is within its entitlement,
/// and at the accumulator's scale the entitlement is within what the credit
/// has earned.
pub proof fn lemma_pending_within_entitlement(
    global_state: GlobalState,
    user_lock: UserLock,
    current_time: i64,
)
    requires
        user_lock.fee_debt <= global_state.cumulative_fee_per_ve_token,
    ensures
        0 <= pending_fees(global_state, user_lock, current_time) <= entitlement(
            global_state,
            user_lock,
        ),
        entitlement(global_state, user_lock) * FEE_PRECISION <= user_lock.initial_ve_amount * (
        global_state.cumulative_fee_per_ve_token - user_lock.fee_debt),
{
    let balance = current_ve_balance(user_lock, current_time);
    let credit = user_lock.initial_ve_amount as int;
    let gain = global_state.cumulative_fee_per_ve_token - user_lock.fee_debt;
    let scale = FEE_PRECISION as int;
    lemma_ve_balance_range(
        credit,
        user_lock.lock_start_time as int,
        user_lock.unlock_time as int,
        current_time as int,
    );
    lemma_mul_nonnegative(balance, gain);
    lemma_mul_inequality(balance, credit, gain);
    lemma_div_pos_is_pos(balance * gain, scale);
    lemma_div_is_ordered(balance * gain, credit * gain, scale);
    lemma_fundamental_div_mod(credit * gain, scale);
    assert(0 <= (credit * gain) % scale);
    assert(scale * (credit * gain / scale) == (credit * gain / scale) * scale) by (nonlinear_arith);
}

} // verus!
