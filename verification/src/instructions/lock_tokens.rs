//! Opening a position, or topping up an open one.

use crate::constants::{MAX_LOCK_DURATION, MIN_LOCK_DURATION};
use crate::error::ErrorCode;
use crate::state::{GlobalState, UserLock};
use crate::utils::{
    calculate_merged_unlock_time, calculate_time_multiplier, calculate_ve_amount,
    lemma_merged_unlock_time_bounds, merged_unlock_time, merged_unlock_time_overflows,
    time_multiplier,
    time_multiplier_underflows, ve_amount, ve_amount_overflows,
};
use anchor_lang::prelude::Pubkey;
use vstd::prelude::*;

verus! {

/// The multiplier that a lock of `lock_duration` earns under the ledger's
/// parameters.
pub open spec fn multiplier(global_state: GlobalState, lock_duration: i64) -> int {
    time_multiplier(
        lock_duration as int,
        global_state.lock_multiplier_numerator as int,
        global_state.lock_multiplier_denominator as int,
    )
}

/// The voting credit issued for `amount` locked for `lock_duration`.
pub open spec fn ve_minted(global_state: GlobalState, amount: u64, lock_duration: i64) -> int {
    ve_amount(
        amount as int,
        multiplier(global_state, lock_duration),
        global_state.lock_multiplier_denominator as int,
    )
}

/// The unlock time that the position gets: that of the new lock where the
/// position was closed, else the average of the old and the new unlock
/// time, weighted by principal.
pub open spec fn unlock_time_after(
    user_lock: UserLock,
    amount: u64,
    lock_duration: i64,
    current_time: i64,
) -> int {
    if user_lock.locked_amount == 0 {
        current_time + lock_duration
    } else {
        merged_unlock_time(
            user_lock.locked_amount as int,
            user_lock.unlock_time as int,
            amount as int,
            current_time + lock_duration,
        )
    }
}

/// Whether some step of the computation leaves the range of its type.
pub open spec fn overflows(
    global_state: GlobalState,
    user_lock: UserLock,
    amount: u64,
    lock_duration: i64,
    current_time: i64,
) -> bool {
    ||| time_multiplier_underflows(
        lock_duration as int,
        global_state.lock_multiplier_numerator as int,
        global_state.lock_multiplier_denominator as int,
    )
    ||| ve_amount_overflows(
        amount as int,
        multiplier(global_state, lock_duration),
        global_state.lock_multiplier_denominator as int,
    )
    ||| current_time + lock_duration > i64::MAX
    ||| user_lock.locked_amount > 0 && merged_unlock_time_overflows(
        user_lock.locked_amount as int,
        user_lock.unlock_time as int,
        amount as int,
        current_time + lock_duration,
    )
    ||| user_lock.locked_amount + amount > u64::MAX
    ||| user_lock.locked_amount > 0 && user_lock.initial_ve_amount + ve_minted(
        global_state,
        amount,
        lock_duration,
    ) > u64::MAX
    ||| global_state.total_locked + amount > u64::MAX
    ||| global_state.total_ve_supply + ve_minted(global_state, amount, lock_duration) > u64::MAX
}

/// Why the lock is refused, if it is: the first of these that applies.
pub open spec fn rejection(
    global_state: GlobalState,
    user_lock: UserLock,
    amount: u64,
    lock_duration: i64,
    current_time: i64,
) -> Option<ErrorCode> {
    if amount == 0 {
        Some(ErrorCode::InvalidAmount)
    } else if lock_duration < MIN_LOCK_DURATION || lock_duration > MAX_LOCK_DURATION {
        Some(ErrorCode::InvalidLockDuration)
    } else if user_lock.is_expired(current_time as int) {
        Some(ErrorCode::LockExpired)
    } else if overflows(global_state, user_lock, amount, lock_duration, current_time) {
        Some(ErrorCode::MathOverflow)
    } else {
        None
    }
}

/// The position after a lock that is not refused. A closed position is set
/// up anew, with its fee debt at the ledger's accumulator, so that it earns
/// nothing of what was deposited before. An open one keeps its owner and
/// its fee figures; its decay window starts again at `current_time`.
pub open spec fn lock_after(
    global_state: GlobalState,
    user_lock: UserLock,
    user: Pubkey,
    bump: u8,
    amount: u64,
    lock_duration: i64,
    current_time: i64,
) -> UserLock {
    if user_lock.locked_amount == 0 {
        UserLock {
            user,
            locked_amount: amount,
            unlock_time: (current_time + lock_duration) as i64,
            lock_start_time: current_time,
            initial_ve_amount: ve_minted(global_state, amount, lock_duration) as u64,
            fees_claimed: 0,
            fee_debt: global_state.cumulative_fee_per_ve_token,
            bump,
        }
    } else {
        UserLock {
            locked_amount: (user_lock.locked_amount + amount) as u64,
            unlock_time: unlock_time_after(user_lock, amount, lock_duration, current_time) as i64,
            lock_start_time: current_time,
            initial_ve_amount: (user_lock.initial_ve_amount + ve_minted(
                global_state,
                amount,
                lock_duration,
            )) as u64,
            ..user_lock
        }
    }
}

/// The ledger after a lock that is not refused.
pub open spec fn global_after(global_state: GlobalState, amount: u64, lock_duration: i64) -> GlobalState {
    GlobalState {
        total_locked: (global_state.total_locked + amount) as u64,
        total_ve_supply: (global_state.total_ve_supply + ve_minted(
            global_state,
            amount,
            lock_duration,
        )) as u64,
        ..global_state
    }
}

/// Locks `amount` of principal for `lock_duration` seconds from
/// `current_time`, for the participant `user`.
///
/// On success both records are updated and the voting credit to mint is
/// returned; the caller moves `amount` of the base asset into the vault and
/// mints the credit. On refusal neither record changes.
pub fn handler(
    global_state: &mut GlobalState,
    user_lock: &mut UserLock,
    user: Pubkey,
    bump: u8,
    amount: u64,
    lock_duration: i64,
    current_time: i64,
) -> (result: Result<u64, ErrorCode>)
    ensures
        match result {
            Ok(minted) => {
                &&& rejection(
                    *old(global_state),
                    *old(user_lock),
                    amount,
                    lock_duration,
                    current_time,
                ) is None
                &&& minted == ve_minted(*old(global_state), amount, lock_duration)
                &&& *final(user_lock) == lock_after(
                    *old(global_state),
                    *old(user_lock),
                    user,
                    bump,
                    amount,
                    lock_duration,
                    current_time,
                )
                &&& *final(global_state) == global_after(*old(global_state), amount, lock_duration)
            },
            Err(e) => {
                &&& rejection(
                    *old(global_state),
                    *old(user_lock),
                    amount,
                    lock_duration,
                    current_time,
                ) == Some(e)
                &&& *final(user_lock) == *old(user_lock)
                &&& *final(global_state) == *old(global_state)
            },
        },
{
    if amount == 0 {
        return Err(ErrorCode::InvalidAmount);
    }
    if lock_duration < MIN_LOCK_DURATION || lock_duration > MAX_LOCK_DURATION {
        return Err(ErrorCode::InvalidLockDuration);
    }
    let is_new_lock = user_lock.locked_amount == 0;
    if !is_new_lock && current_time >= user_lock.unlock_time {
        return Err(ErrorCode::LockExpired);
    }
    let time_multiplier = calculate_time_multiplier(
        lock_duration,
        global_state.lock_multiplier_numerator,
        global_state.lock_multiplier_denominator,
    )?;
    let new_ve_amount = calculate_ve_amount(
        amount,
        time_multiplier,
        global_state.lock_multiplier_denominator,
    )?;
    let new_unlock_time = match current_time.checked_add(lock_duration) {
        Some(time) => time,
        None => {
            return Err(ErrorCode::MathOverflow);
        },
    };
    let final_unlock_time = if is_new_lock {
        new_unlock_time
    } else {
        calculate_merged_unlock_time(
            user_lock.locked_amount,
            user_lock.unlock_time,
            amount,
            new_unlock_time,
        )?
    };
    let locked_amount = match user_lock.locked_amount.checked_add(amount) {
        Some(sum) => sum,
        None => {
            return Err(ErrorCode::MathOverflow);
        },
    };
    let initial_ve_amount = if is_new_lock {
        new_ve_amount
    } else {
        match user_lock.initial_ve_amount.checked_add(new_ve_amount) {
            Some(sum) => sum,
            None => {
                return Err(ErrorCode::MathOverflow);
            },
        }
    };
    let total_locked = match global_state.total_locked.checked_add(amount) {
        Some(sum) => sum,
        None => {
            return Err(ErrorCode::MathOverflow);
        },
    };
    let total_ve_supply = match global_state.total_ve_supply.checked_add(new_ve_amount) {
        Some(sum) => sum,
        None => {
            return Err(ErrorCode::MathOverflow);
        },
    };

    if is_new_lock {
        user_lock.user = user;
        user_lock.fees_claimed = 0;
        user_lock.fee_debt = global_state.cumulative_fee_per_ve_token;
        user_lock.bump = bump;
    }
    user_lock.locked_amount = locked_amount;
    user_lock.unlock_time = final_unlock_time;
    user_lock.lock_start_time = current_time;
    user_lock.initial_ve_amount = initial_ve_amount;
    global_state.total_locked = total_locked;
    global_state.total_ve_supply = total_ve_supply;
    Ok(new_ve_amount)
}

/// A lock that is not refused leaves a well-formed position well-formed,
/// as long as the clock has not gone back behind the start of the window
/// that is merged.
pub proof fn lemma_lock_keeps_position_wf(
    global_state: GlobalState,
    user_lock: UserLock,
    user: Pubkey,
    bump: u8,
    amount: u64,
    lock_duration: i64,
    current_time: i64,
)
    requires
        user_lock.wf(),
        user_lock.locked_amount > 0 ==> user_lock.lock_start_time <= current_time,
        rejection(global_state, user_lock, amount, lock_duration, current_time) is None,
    ensures
        lock_after(global_state, user_lock, user, bump, amount, lock_duration, current_time).wf(),
        lock_after(
            global_state,
            user_lock,
            user,
            bump,
            amount,
            lock_duration,
            current_time,
        ).is_open(current_time as int),
{
    if user_lock.locked_amount > 0 {
        let new_unlock = current_time + lock_duration;
        let later = if user_lock.unlock_time >= new_unlock {
            user_lock.unlock_time as int
        } else {
            new_unlock
        };
        lemma_merged_unlock_time_bounds(
            user_lock.locked_amount as int,
            user_lock.unlock_time as int,
            amount as int,
            new_unlock,
            current_time + 1,
            later,
        );
    }
}

} // verus!
