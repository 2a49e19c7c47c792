//! Adding principal to an open position without restarting its decay
//! window.

use crate::error::ErrorCode;
use crate::state::{GlobalState, UserLock};
use crate::utils::{
    calculate_time_multiplier, calculate_ve_amount, time_multiplier,
    time_multiplier_underflows, ve_amount, ve_amount_overflows,
};
use vstd::prelude::*;

verus! {

/// The time that the lock still has to run.
pub open spec fn remaining_duration(user_lock: UserLock, current_time: i64) -> int {
    user_lock.unlock_time - current_time
}

/// The multiplier that the remaining time earns under the ledger's
/// parameters.
pub open spec fn multiplier(
    global_state: GlobalState,
    user_lock: UserLock,
    current_time: i64,
) -> int {
    time_multiplier(
        remaining_duration(user_lock, current_time),
        global_state.lock_multiplier_numerator as int,
        global_state.lock_multiplier_denominator as int,
    )
}

/// The voting credit issued for `additional_amount`: what that much
/// principal earns when locked for the remaining time.
pub open spec fn ve_minted(
    global_state: GlobalState,
    user_lock: UserLock,
    additional_amount: u64,
    current_time: i64,
) -> int {
    ve_amount(
        additional_amount as int,
        multiplier(global_state, user_lock, current_time),
        global_state.lock_multiplier_denominator as int,
    )
}

/// Whether some step of the computation leaves the range of its type.
pub open spec fn overflows(
    global_state: GlobalState,
    user_lock: UserLock,
    additional_amount: u64,
    current_time: i64,
) -> bool {
    ||| remaining_duration(user_lock, current_time) > i64::MAX
    ||| time_multiplier_underflows(
        remaining_duration(user_lock, current_time),
        global_state.lock_multiplier_numerator as int,
        global_state.lock_multiplier_denominator as int,
    )
    ||| ve_amount_overflows(
        additional_amount as int,
        multiplier(global_state, user_lock, current_time),
        global_state.lock_multiplier_denominator as int,
    )
    ||| user_lock.locked_amount + additional_amount > u64::MAX
    ||| user_lock.initial_ve_amount + ve_minted(
        global_state,
        user_lock,
        additional_amount,
        current_time,
    ) > u64::MAX
    ||| global_state.total_locked + additional_amount > u64::MAX
    ||| global_state.total_ve_supply + ve_minted(
        global_state,
        user_lock,
        additional_amount,
        current_time,
    ) > u64::MAX
}

/// Why the increase is refused, if it is: the first of these that applies.
pub open spec fn rejection(
    global_state: GlobalState,
    user_lock: UserLock,
    additional_amount: u64,
    current_time: i64,
) -> Option<ErrorCode> {
    if additional_amount == 0 {
        Some(ErrorCode::InvalidAmount)
    } else if user_lock.is_closed() {
        Some(ErrorCode::NoExistingLock)
    } else if user_lock.is_expired(current_time as int) {
        Some(ErrorCode::LockExpired)
    } else if overflows(global_state, user_lock, additional_amount, current_time) {
        Some(ErrorCode::MathOverflow)
    } else {
        None
    }
}

/// The position after an increase that is not refused: more principal and
/// more credit, over the same decay window.
pub open spec fn lock_after(
    global_state: GlobalState,
    user_lock: UserLock,
    additional_amount: u64,
    current_time: i64,
) -> UserLock {
    UserLock {
        locked_amount: (user_lock.locked_amount + additional_amount) as u64,
        initial_ve_amount: (user_lock.initial_ve_amount + ve_minted(
            global_state,
            user_lock,
            additional_amount,
            current_time,
        )) as u64,
        ..user_lock
    }
}

/// The ledger after an increase that is not refused.
pub open spec fn global_after(
    global_state: GlobalState,
    user_lock: UserLock,
    additional_amount: u64,
    current_time: i64,
) -> GlobalState {
    GlobalState {
        total_locked: (global_state.total_locked + additional_amount) as u64,
        total_ve_supply: (global_state.total_ve_supply + ve_minted(
            global_state,
            user_lock,
            additional_amount,
            current_time,
        )) as u64,
        ..global_state
    }
}

/// Adds `additional_amount` of principal to an open position at
/// `current_time`.
///
/// On success both records are updated and the voting credit to mint is
/// returned; the caller moves `additional_amount` of the base asset into
/// the vault and mints the credit. On refusal neither record changes.
pub fn handler(
    global_state: &mut GlobalState,
    user_lock: &mut UserLock,
    additional_amount: u64,
    current_time: i64,
) -> (result: Result<u64, ErrorCode>)
    ensures
        match result {
            Ok(minted) => {
                &&& rejection(*old(global_state), *old(user_lock), additional_amount, current_time)
                    is None
                &&& minted == ve_minted(
                    *old(global_state),
                    *old(user_lock),
                    additional_amount,
                    current_time,
                )
                &&& *final(user_lock) == lock_after(
                    *old(global_state),
                    *old(user_lock),
                    additional_amount,
                    current_time,
                )
                &&& *final(global_state) == global_after(
                    *old(global_state),
                    *old(user_lock),
                    additional_amount,
                    current_time,
                )
            },
            Err(e) => {
                &&& rejection(*old(global_state), *old(user_lock), additional_amount, current_time)
                    == Some(e)
                &&& *final(user_lock) == *old(user_lock)
                &&& *final(global_state) == *old(global_state)
            },
        },
{
    if additional_amount == 0 {
        return Err(ErrorCode::InvalidAmount);
    }
    if user_lock.locked_amount == 0 {
        return Err(ErrorCode::NoExistingLock);
    }
    if current_time >= user_lock.unlock_time {
        return Err(ErrorCode::LockExpired);
    }
    let remaining_duration = match user_lock.unlock_time.checked_sub(current_time) {
        Some(duration) => duration,
        None => {
            return Err(ErrorCode::MathOverflow);
        },
    };
    let time_multiplier = calculate_time_multiplier(
        remaining_duration,
        global_state.lock_multiplier_numerator,
        global_state.lock_multiplier_denominator,
    )?;
    let additional_ve_amount = calculate_ve_amount(
        additional_amount,
        time_multiplier,
        global_state.lock_multiplier_denominator,
    )?;
    let locked_amount = match user_lock.locked_amount.checked_add(additional_amount) {
        Some(sum) => sum,
        None => {
            return Err(ErrorCode::MathOverflow);
        },
    };
    let initial_ve_amount = match user_lock.initial_ve_amount.checked_add(additional_ve_amount) {
        Some(sum) => sum,
        None => {
            return Err(ErrorCode::MathOverflow);
        },
    };
    let total_locked = match global_state.total_locked.checked_add(additional_amount) {
        Some(sum) => sum,
        None => {
            return Err(ErrorCode::MathOverflow);
        },
    };
    let total_ve_supply = match global_state.total_ve_supply.checked_add(additional_ve_amount) {
        Some(sum) => sum,
        None => {
            return Err(ErrorCode::MathOverflow);
        },
    };

    user_lock.locked_amount = locked_amount;
    user_lock.initial_ve_amount = initial_ve_amount;
    global_state.total_locked = total_locked;
    global_state.total_ve_supply = total_ve_supply;
    Ok(additional_ve_amount)
}

/// An increase that is not refused leaves a well-formed position
/// well-formed, and open.
pub proof fn lemma_increase_keeps_position_wf(
    global_state: GlobalState,
    user_lock: UserLock,
    additional_amount: u64,
    current_time: i64,
)
    requires
        user_lock.wf(),
        rejection(global_state, user_lock, additional_amount, current_time) is None,
    ensures
        lock_after(global_state, user_lock, additional_amount, current_time).wf(),
        lock_after(global_state, user_lock, additional_amount, current_time).is_open(
            current_time as int,
        ),
{
}

} // verus!
