//! Closing an expired position.

use crate::error::ErrorCode;
use crate::state::{GlobalState, UserLock};
use vstd::prelude::*;

verus! {

/// What the custody layer carries out for a withdrawal.
#[derive(Clone, Copy, Debug, PartialEq, Eq, Structural)]
pub struct Withdrawal {
    /// Principal to return from the vault to the participant.
    pub amount: u64,
    /// Voting credit to burn: all that the position was issued.
    pub ve_amount: u64,
}

/// Why the withdrawal is refused, if it is: the first of these that
/// applies. The totals of a ledger that holds the position never fall short
/// of it, so the last is not met in a protocol that was run from setup.
pub open spec fn rejection(
    global_state: GlobalState,
    user_lock: UserLock,
    current_time: i64,
) -> Option<ErrorCode> {
    if user_lock.is_closed() {
        Some(ErrorCode::NoExistingLock)
    } else if current_time < user_lock.unlock_time {
        Some(ErrorCode::LockNotExpired)
    } else if global_state.total_locked < user_lock.locked_amount || global_state.total_ve_supply
        < user_lock.initial_ve_amount {
        Some(ErrorCode::MathOverflow)
    } else {
        None
    }
}

/// The position after a withdrawal that is not refused: zeroed, but for its
/// owner and its fee figures, which stay as they were until the position is
/// opened again.
pub open spec fn lock_after(user_lock: UserLock) -> UserLock {
    UserLock {
        locked_amount: 0,
        unlock_time: 0,
        lock_start_time: 0,
        initial_ve_amount: 0,
        ..user_lock
    }
}

/// The ledger after a withdrawal that is not refused.
pub open spec fn global_after(global_state: GlobalState, user_lock: UserLock) -> GlobalState {
    GlobalState {
        total_locked: (global_state.total_locked - user_lock.locked_amount) as u64,
        total_ve_supply: (global_state.total_ve_supply - user_lock.initial_ve_amount) as u64,
        ..global_state
    }
}

/// Closes a position whose unlock time has come at `current_time`.
///
/// On success both records are updated and the principal to return and the
/// credit to burn are handed back; the caller burns the credit and returns
/// the principal. On refusal neither record changes.
pub fn handler(
    global_state: &mut GlobalState,
    user_lock: &mut UserLock,
    current_time: i64,
) -> (result: Result<Withdrawal, ErrorCode>)
    ensures
        match result {
            Ok(withdrawal) => {
                &&& rejection(*old(global_state), *old(user_lock), current_time) is None
                &&& withdrawal.amount == old(user_lock).locked_amount
                &&& withdrawal.ve_amount == old(user_lock).initial_ve_amount
                &&& *final(user_lock) == lock_after(*old(user_lock))
                &&& *final(global_state) == global_after(*old(global_state), *old(user_lock))
            },
            Err(e) => {
                &&& rejection(*old(global_state), *old(user_lock), current_time) == Some(e)
                &&& *final(user_lock) == *old(user_lock)
                &&& *final(global_state) == *old(global_state)
            },
        },
{
    if user_lock.locked_amount == 0 {
        return Err(ErrorCode::NoExistingLock);
    }
    if current_time < user_lock.unlock_time {
        return Err(ErrorCode::LockNotExpired);
    }
    let amount = user_lock.locked_amount;
    let ve_amount = user_lock.initial_ve_amount;
    let total_locked = match global_state.total_locked.checked_sub(amount) {
        Some(difference) => difference,
        None => {
            return Err(ErrorCode::MathOverflow);
        },
    };
    let total_ve_supply = match global_state.total_ve_supply.checked_sub(ve_amount) {
        Some(difference) => difference,
        None => {
            return Err(ErrorCode::MathOverflow);
        },
    };

    global_state.total_locked = total_locked;
    global_state.total_ve_supply = total_ve_supply;
    user_lock.locked_amount = 0;
    user_lock.unlock_time = 0;
    user_lock.lock_start_time = 0;
    user_lock.initial_ve_amount = 0;
    Ok(Withdrawal { amount, ve_amount })
}

/// A withdrawal that is not refused leaves the position closed and
/// well-formed, whatever it was before.
pub proof fn lemma_withdraw_closes_position(
    global_state: GlobalState,
    user_lock: UserLock,
    current_time: i64,
)
    requires
        rejection(global_state, user_lock, current_time) is None,
    ensures
        user_lock.is_expired(current_time as int),
        lock_after(user_lock).wf(),
        lock_after(user_lock).is_closed(),
        lock_after(user_lock).fee_debt == user_lock.fee_debt,
{
}

} // verus!
