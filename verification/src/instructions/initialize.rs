//! Setting the protocol up.

use crate::state::GlobalState;
use anchor_lang::prelude::Pubkey;
use vstd::prelude::*;

verus! {

/// The ledger of a protocol in which nothing has happened yet: the given
/// accounts and multiplier range, and every total at zero.
pub open spec fn initial_state(
    authority: Pubkey,
    base_mint: Pubkey,
    ve_mint: Pubkey,
    token_vault: Pubkey,
    fee_vault: Pubkey,
    lock_multiplier_numerator: u64,
    lock_multiplier_denominator: u64,
    bump: u8,
) -> GlobalState {
    GlobalState {
        authority,
        base_mint,
        ve_mint,
        token_vault,
        fee_vault,
        total_locked: 0,
        total_ve_supply: 0,
        total_fees_deposited: 0,
        cumulative_fee_per_ve_token: 0,
        lock_multiplier_numerator,
        lock_multiplier_denominator,
        bump,
    }
}

/// Creates the ledger. The multiplier range is taken as it is given: it is
/// set once, here.
pub fn handler(
    authority: Pubkey,
    base_mint: Pubkey,
    ve_mint: Pubkey,
    token_vault: Pubkey,
    fee_vault: Pubkey,
    lock_multiplier_numerator: u64,
    lock_multiplier_denominator: u64,
    bump: u8,
) -> (global_state: GlobalState)
    ensures
        global_state == initial_state(
            authority,
            base_mint,
            ve_mint,
            token_vault,
            fee_vault,
            lock_multiplier_numerator,
            lock_multiplier_denominator,
            bump,
        ),
{
    GlobalState {
        authority,
        base_mint,
        ve_mint,
        token_vault,
        fee_vault,
        total_locked: 0,
        total_ve_supply: 0,
        total_fees_deposited: 0,
        cumulative_fee_per_ve_token: 0,
        lock_multiplier_numerator,
        lock_multiplier_denominator,
        bump,
    }
}

} // verus!
