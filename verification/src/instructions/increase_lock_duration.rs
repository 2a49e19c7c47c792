//! Extending the unlock time of an open position.

use crate::constants::MAX_LOCK_DURATION;
use crate::error::ErrorCode;
use crate::state::{GlobalState, UserLock};
use crate::utils::{
    calculate_time_multiplier, calculate_ve_amount, time_multiplier,
    time_multiplier_underflows, ve_amount, ve_amount_overflows,
};
use vstd::prelude::*;

verus! {

/// The unlock time after the extension.
pub open spec fn new_unlock_time(user_lock: UserLock, additional_duration: i64) -> int {
    user_lock.unlock_time + additional_duration
}

/// The length of the decay window after the extension.
pub open spec fn new_total_duration(user_lock: UserLock, additional_duration: i64) -> int {
    new_unlock_time(user_lock, additional_duration) - user_lock.lock_start_time
}

/// The multiplier that the extended window earns under the ledger's
/// parameters.
pub open spec fn multiplier(
    global_state: GlobalState,
    user_lock: UserLock,
    additional_duration: i64,
) -> int {
    time_multiplier(
        new_total_duration(user_lock, additional_duration),
        global_state.lock_multiplier_numerator as int,
        global_state.lock_multiplier_denominator as int,
    )
}

/// The credit that the locked principal would earn if it were locked anew
/// for the extended window.
pub open spec fn recomputed_ve_amount(
    global_state: GlobalState,
    user_lock: UserLock,
    additional_duration: i64,
) -> int {
    ve_amount(
        user_lock.locked_amount as int,
        multiplier(global_state, user_lock, additional_duration),
        global_state.lock_multiplier_denominator as int,
    )
}

/// The voting credit issued for the extension: what the recomputed credit
/// exceeds the position's credit by, and nothing where it does not.
pub open spec fn ve_minted(
    global_state: GlobalState,
    user_lock: UserLock,
    additional_duration: i64,
) -> int {
    let recomputed = recomputed_ve_amount(global_state, user_lock, additional_duration);
    if recomputed > user_lock.initial_ve_amount {
        recomputed - user_lock.initial_ve_amount
    } else {
        0
    }
}

/// Whether the extended window leaves the range of a timestamp.
pub open spec fn window_overflows(user_lock: UserLock, additional_duration: i64) -> bool {
    ||| new_unlock_time(user_lock, additional_duration) > i64::MAX
    ||| new_total_duration(user_lock, additional_duration) > i64::MAX
    ||| new_total_duration(user_lock, additional_duration) < i64::MIN
}

/// Whether the credit for the extended window leaves the range of its type.
pub open spec fn credit_overflows(
    global_state: GlobalState,
    user_lock: UserLock,
    additional_duration: i64,
) -> bool {
    ||| time_multiplier_underflows(
        new_total_duration(user_lock, additional_duration),
        global_state.lock_multiplier_numerator as int,
        global_state.lock_multiplier_denominator as int,
    )
    ||| ve_amount_overflows(
        user_lock.locked_amount as int,
        multiplier(global_state, user_lock, additional_duration),
        global_state.lock_multiplier_denominator as int,
    )
    ||| global_state.total_ve_supply + ve_minted(global_state, user_lock, additional_duration)
        > u64::MAX
}

/// Why the extension is refused, if it is: the first of these that applies.
pub open spec fn rejection(
    global_state: GlobalState,
    user_lock: UserLock,
    additional_duration: i64,
    current_time: i64,
) -> Option<ErrorCode> {
    if additional_duration <= 0 {
        Some(ErrorCode::InvalidLockDuration)
    } else if user_lock.is_closed() {
        Some(ErrorCode::NoExistingLock)
    } else if user_lock.is_expired(current_time as int) {
        Some(ErrorCode::LockExpired)
    } else if window_overflows(user_lock, additional_duration) {
        Some(ErrorCode::MathOverflow)
    } else if new_total_duration(user_lock, additional_duration) > MAX_LOCK_DURATION {
        Some(ErrorCode::InvalidLockDuration)
    } else if credit_overflows(global_state, user_lock, additional_duration) {
        Some(ErrorCode::MathOverflow)
    } else {
        None
    }
}

/// The position after an extension that is not refused: a later unlock
/// time, and the recomputed credit where that is more than it had.
pub open spec fn lock_after(
    global_state: GlobalState,
    user_lock: UserLock,
    additional_duration: i64,
) -> UserLock {
    UserLock {
        unlock_time: new_unlock_time(user_lock, additional_duration) as i64,
        initial_ve_amount: (user_lock.initial_ve_amount + ve_minted(
            global_state,
            user_lock,
            additional_duration,
        )) as u64,
        ..user_lock
    }
}

/// The ledger after an extension that is not refused.
pub open spec fn global_after(
    global_state: GlobalState,
    user_lock: UserLock,
    additional_duration: i64,
) -> GlobalState {
    GlobalState {
        total_ve_supply: (global_state.total_ve_supply + ve_minted(
            global_state,
            user_lock,
            additional_duration,
        )) as u64,
        ..global_state
    }
}

/// Extends the unlock time of an open position by `additional_duration`
/// seconds at `current_time`.
///
/// On success both records are updated and the voting credit to mint is
/// returned, which may be zero; the caller mints it. On refusal neither
/// record changes.
pub fn handler(
    global_state: &mut GlobalState,
    user_lock: &mut UserLock,
    additional_duration: i64,
    current_time: i64,
) -> (result: Result<u64, ErrorCode>)
    ensures
        match result {
            Ok(minted) => {
                &&& rejection(
                    *old(global_state),
                    *old(user_lock),
                    additional_duration,
                    current_time,
                ) is None
                &&& minted == ve_minted(*old(global_state), *old(user_lock), additional_duration)
                &&& *final(user_lock) == lock_after(
                    *old(global_state),
                    *old(user_lock),
                    additional_duration,
                )
                &&& *final(global_state) == global_after(
                    *old(global_state),
                    *old(user_lock),
                    additional_duration,
                )
            },
            Err(e) => {
                &&& rejection(
                    *old(global_state),
                    *old(user_lock),
                    additional_duration,
                    current_time,
                ) == Some(e)
                &&& *final(user_lock) == *old(user_lock)
                &&& *final(global_state) == *old(global_state)
            },
        },
{
    if additional_duration <= 0 {
        return Err(ErrorCode::InvalidLockDuration);
    }
    if user_lock.locked_amount == 0 {
        return Err(ErrorCode::NoExistingLock);
    }
    if current_time >= user_lock.unlock_time {
        return Err(ErrorCode::LockExpired);
    }
    let new_unlock_time = match user_lock.unlock_time.checked_add(additional_duration) {
        Some(time) => time,
        None => {
            return Err(ErrorCode::MathOverflow);
        },
    };
    let new_total_duration = match new_unlock_time.checked_sub(user_lock.lock_start_time) {
        Some(duration) => duration,
        None => {
            return Err(ErrorCode::MathOverflow);
        },
    };
    if new_total_duration > MAX_LOCK_DURATION {
        return Err(ErrorCode::InvalidLockDuration);
    }
    let time_multiplier = calculate_time_multiplier(
        new_total_duration,
        global_state.lock_multiplier_numerator,
        global_state.lock_multiplier_denominator,
    )?;
    let new_ve_amount = calculate_ve_amount(
        user_lock.locked_amount,
        time_multiplier,
        global_state.lock_multiplier_denominator,
    )?;
    let mut additional_ve_amount: u64 = 0;
    if new_ve_amount > user_lock.initial_ve_amount {
        additional_ve_amount = new_ve_amount - user_lock.initial_ve_amount;
        let total_ve_supply = match global_state.total_ve_supply.checked_add(
            additional_ve_amount,
        ) {
            Some(sum) => sum,
            None => {
                return Err(ErrorCode::MathOverflow);
            },
        };
        global_state.total_ve_supply = total_ve_supply;
        user_lock.initial_ve_amount = new_ve_amount;
    }
    user_lock.unlock_time = new_unlock_time;
    Ok(additional_ve_amount)
}

/// An extension that is not refused leaves a well-formed position
/// well-formed, and open. Its credit has not shrunk.
pub proof fn lemma_extension_keeps_position_wf(
    global_state: GlobalState,
    user_lock: UserLock,
    additional_duration: i64,
    current_time: i64,
)
    requires
        user_lock.wf(),
        rejection(global_state, user_lock, additional_duration, current_time) is None,
    ensures
        lock_after(global_state, user_lock, additional_duration).wf(),
        lock_after(global_state, user_lock, additional_duration).is_open(current_time as int),
        lock_after(global_state, user_lock, additional_duration).initial_ve_amount
            >= user_lock.initial_ve_amount,
{
    lemma_extension_credit_fits(global_state, user_lock, additional_duration);
}

/// Where the credit for the extended window can be issued, the position's
/// new credit fits its type: it is the larger of the old credit and the
/// recomputed one.
pub proof fn lemma_extension_credit_fits(
    global_state: GlobalState,
    user_lock: UserLock,
    additional_duration: i64,
)
    requires
        !credit_overflows(global_state, user_lock, additional_duration),
    ensures
        user_lock.initial_ve_amount + ve_minted(global_state, user_lock, additional_duration)
            <= u64::MAX,
        user_lock.initial_ve_amount + ve_minted(global_state, user_lock, additional_duration)
            == (if recomputed_ve_amount(global_state, user_lock, additional_duration)
            > user_lock.initial_ve_amount {
            recomputed_ve_amount(global_state, user_lock, additional_duration)
        } else {
            user_lock.initial_ve_amount as int
        }),
{
}

} // verus!
