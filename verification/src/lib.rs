//! Accounting core of a vote-escrow locking protocol.
//!
//! Participants lock a base asset for a chosen duration and receive a
//! voting-power credit that decays linearly to zero at unlock time. The
//! credit entitles its holder to a pro-rata share of deposited fees, paid
//! out through a cumulative per-credit accumulator.
//!
//! Every operation is a function from the protocol ledger, one position
//! record, the arguments and the current time to the next state and the
//! amounts that the custody layer has to move. Nothing here touches an
//! account or a token: the caller performs the transfers that the result
//! names, and reads the clock.
//!
//! The operations live in [`instructions`], one module each, with the
//! specification functions that their contracts are stated over. The
//! functions of this module are the entry points, under the names of the
//! operations. [`protocol`] models the ledger together with all positions
//! and proves what holds of them after any run of operations.

pub mod constants;
pub mod error;
pub mod instructions;
pub mod protocol;
pub mod state;
pub mod utils;

use crate::error::ErrorCode;
use crate::instructions::withdraw::Withdrawal;
use crate::state::{GlobalState, UserLock};
use anchor_lang::prelude::Pubkey;
use vstd::prelude::*;

verus! {

/// Creates the ledger of a protocol in which nothing has happened yet.
pub fn initialize(
    authority: Pubkey,
    base_mint: Pubkey,
    ve_mint: Pubkey,
    token_vault: Pubkey,
    fee_vault: Pubkey,
    lock_multiplier_numerator: u64,
    lock_multiplier_denominator: u64,
    bump: u8,
) -> (global_state: GlobalState)
    ensures
        global_state == instructions::initialize::initial_state(
            authority,
            base_mint,
            ve_mint,
            token_vault,
            fee_vault,
            lock_multiplier_numerator,
            lock_multiplier_denominator,
            bump,
        ),
{
    instructions::initialize::handler(
        authority,
        base_mint,
        ve_mint,
        token_vault,
        fee_vault,
        lock_multiplier_numerator,
        lock_multiplier_denominator,
        bump,
    )
}

/// Locks `amount` of principal for `lock_duration` seconds: opens a closed
/// position, or tops up an open one. Returns the voting credit to mint.
pub fn lock_tokens(
    global_state: &mut GlobalState,
    user_lock: &mut UserLock,
    user: Pubkey,
    bump: u8,
    amount: u64,
    lock_duration: i64,
    current_time: i64,
) -> (result: Result<u64, ErrorCode>)
    ensures
        match result {
            Ok(minted) => {
                &&& instructions::lock_tokens::rejection(
                    *old(global_state),
                    *old(user_lock),
                    amount,
                    lock_duration,
                    current_time,
                ) is None
                &&& minted == instructions::lock_tokens::ve_minted(
                    *old(global_state),
                    amount,
                    lock_duration,
                )
                &&& *final(user_lock) == instructions::lock_tokens::lock_after(
                    *old(global_state),
                    *old(user_lock),
                    user,
                    bump,
                    amount,
                    lock_duration,
                    current_time,
                )
                &&& *final(global_state) == instructions::lock_tokens::global_after(
                    *old(global_state),
                    amount,
                    lock_duration,
                )
            },
            Err(e) => {
                &&& instructions::lock_tokens::rejection(
                    *old(global_state),
                    *old(user_lock),
                    amount,
                    lock_duration,
                    current_time,
                ) == Some(e)
                &&& *final(user_lock) == *old(user_lock)
                &&& *final(global_state) == *old(global_state)
            },
        },
{
    instructions::lock_tokens::handler(
        global_state,
        user_lock,
        user,
        bump,
        amount,
        lock_duration,
        current_time,
    )
}

/// Adds `additional_amount` of principal to an open position. Returns the
/// voting credit to mint.
pub fn increase_lock_amount(
    global_state: &mut GlobalState,
    user_lock: &mut UserLock,
    additional_amount: u64,
    current_time: i64,
) -> (result: Result<u64, ErrorCode>)
    ensures
        match result {
            Ok(minted) => {
                &&& instructions::increase_lock_amount::rejection(
                    *old(global_state),
                    *old(user_lock),
                    additional_amount,
                    current_time,
                ) is None
                &&& minted == instructions::increase_lock_amount::ve_minted(
                    *old(global_state),
                    *old(user_lock),
                    additional_amount,
                    current_time,
                )
                &&& *final(user_lock) == instructions::increase_lock_amount::lock_after(
                    *old(global_state),
                    *old(user_lock),
                    additional_amount,
                    current_time,
                )
                &&& *final(global_state) == instructions::increase_lock_amount::global_after(
                    *old(global_state),
                    *old(user_lock),
                    additional_amount,
                    current_time,
                )
            },
            Err(e) => {
                &&& instructions::increase_lock_amount::rejection(
                    *old(global_state),
                    *old(user_lock),
                    additional_amount,
                    current_time,
                ) == Some(e)
                &&& *final(user_lock) == *old(user_lock)
                &&& *final(global_state) == *old(global_state)
            },
        },
{
    instructions::increase_lock_amount::handler(
        global_state,
        user_lock,
        additional_amount,
        current_time,
    )
}

/// Extends the unlock time of an open position by `additional_duration`
/// seconds. Returns the voting credit to mint, which may be zero.
pub fn increase_lock_duration(
    global_state: &mut GlobalState,
    user_lock: &mut UserLock,
    additional_duration: i64,
    current_time: i64,
) -> (result: Result<u64, ErrorCode>)
    ensures
        match result {
            Ok(minted) => {
                &&& instructions::increase_lock_duration::rejection(
                    *old(global_state),
                    *old(user_lock),
                    additional_duration,
                    current_time,
                ) is None
                &&& minted == instructions::increase_lock_duration::ve_minted(
                    *old(global_state),
                    *old(user_lock),
                    additional_duration,
                )
                &&& *final(user_lock) == instructions::increase_lock_duration::lock_after(
                    *old(global_state),
                    *old(user_lock),
                    additional_duration,
                )
                &&& *final(global_state) == instructions::increase_lock_duration::global_after(
                    *old(global_state),
                    *old(user_lock),
                    additional_duration,
                )
            },
            Err(e) => {
                &&& instructions::increase_lock_duration::rejection(
                    *old(global_state),
                    *old(user_lock),
                    additional_duration,
                    current_time,
                ) == Some(e)
                &&& *final(user_lock) == *old(user_lock)
                &&& *final(global_state) == *old(global_state)
            },
        },
{
    instructions::increase_lock_duration::handler(
        global_state,
        user_lock,
        additional_duration,
        current_time,
    )
}

/// Closes a position whose unlock time has come. Returns the principal to
/// hand back and the voting credit to burn.
pub fn withdraw(global_state: &mut GlobalState, user_lock: &mut UserLock, current_time: i64) -> (result:
    Result<Withdrawal, ErrorCode>)
    ensures
        match result {
            Ok(withdrawal) => {
                &&& instructions::withdraw::rejection(
                    *old(global_state),
                    *old(user_lock),
                    current_time,
                ) is None
                &&& withdrawal.amount == old(user_lock).locked_amount
                &&& withdrawal.ve_amount == old(user_lock).initial_ve_amount
                &&& *final(user_lock) == instructions::withdraw::lock_after(*old(user_lock))
                &&& *final(global_state) == instructions::withdraw::global_after(
                    *old(global_state),
                    *old(user_lock),
                )
            },
            Err(e) => {
                &&& instructions::withdraw::rejection(
                    *old(global_state),
                    *old(user_lock),
                    current_time,
                ) == Some(e)
                &&& *final(user_lock) == *old(user_lock)
                &&& *final(global_state) == *old(global_state)
            },
        },
{
    instructions::withdraw::handler(global_state, user_lock, current_time)
}

/// Records a deposit of `amount` of the fee asset.
pub fn deposit_fees(global_state: &mut GlobalState, amount: u64) -> (result: Result<(), ErrorCode>)
    ensures
        match result {
            Ok(_) => {
                &&& instructions::deposit_fees::rejection(*old(global_state), amount) is None
                &&& *final(global_state) == instructions::deposit_fees::global_after(
                    *old(global_state),
                    amount,
                )
            },
            Err(e) => {
                &&& instructions::deposit_fees::rejection(*old(global_state), amount) == Some(e)
                &&& *final(global_state) == *old(global_state)
            },
        },
{
    instructions::deposit_fees::handler(global_state, amount)
}

/// Settles the fees of a position. Returns the amount to pay out, which is
/// never zero.
pub fn claim_fees(global_state: &GlobalState, user_lock: &mut UserLock, current_time: i64) -> (result:
    Result<u64, ErrorCode>)
    ensures
        match result {
            Ok(paid) => {
                &&& instructions::claim_fees::rejection(
                    *global_state,
                    *old(user_lock),
                    current_time,
                ) is None
                &&& paid == instructions::claim_fees::pending_fees(
                    *global_state,
                    *old(user_lock),
                    current_time,
                )
                &&& paid > 0
                &&& *final(user_lock) == instructions::claim_fees::lock_after(
                    *global_state,
                    *old(user_lock),
                    current_time,
                )
            },
            Err(e) => {
                &&& instructions::claim_fees::rejection(
                    *global_state,
                    *old(user_lock),
                    current_time,
                ) == Some(e)
                &&& *final(user_lock) == *old(user_lock)
            },
        },
{
    instructions::claim_fees::handler(global_state, user_lock, current_time)
}

/// Admits a mint of `amount` of the base asset: any amount but zero.
pub fn mint_tokens(amount: u64) -> (result: Result<u64, ErrorCode>)
    ensures
        amount > 0 ==> result == Ok::<u64, ErrorCode>(amount),
        amount == 0 ==> result == Err::<u64, ErrorCode>(ErrorCode::InvalidAmount),
{
    instructions::mint_tokens::handler(amount)
}

} // verus!
