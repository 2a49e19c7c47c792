//! The two persistent records: the protocol ledger and a participant's
//! position.

use crate::constants::MAX_LOCK_DURATION;
use anchor_lang::prelude::Pubkey;
use vstd::prelude::*;

verus! {

/// `anchor_lang::prelude::Pubkey`, the 32-byte account address of
/// `solana_program`. The records carry such keys through unchanged; nothing
/// is claimed of what one holds.
#[verifier::external_type_specification]
#[verifier::external_body]
pub struct ExPubkey(anchor_lang::prelude::Pubkey);

/// The protocol ledger: one instance, created at setup and changed by every
/// lock and fee operation.
#[derive(Clone, Copy, Debug, PartialEq, Eq)]
pub struct GlobalState {
    /// Who may deposit fees.
    pub authority: Pubkey,
    /// Mint of the base asset.
    pub base_mint: Pubkey,
    /// Mint of the voting-power receipt.
    pub ve_mint: Pubkey,
    /// Vault that holds locked principal.
    pub token_vault: Pubkey,
    /// Vault that holds deposited fees.
    pub fee_vault: Pubkey,
    /// Sum of the principal locked in all positions.
    pub total_locked: u64,
    /// Sum of the undecayed voting credit issued to all positions.
    pub total_ve_supply: u64,
    /// All fees ever deposited.
    pub total_fees_deposited: u64,
    /// Fees earned per unit of voting credit since inception, scaled by
    /// `FEE_PRECISION`.
    pub cumulative_fee_per_ve_token: u128,
    /// Multiplier granted at the longest lock.
    pub lock_multiplier_numerator: u64,
    /// Multiplier granted at the shortest lock, and the divisor that turns a
    /// multiplier into a ratio.
    pub lock_multiplier_denominator: u64,
    /// Address bump of the ledger account.
    pub bump: u8,
}

/// One participant's position.
#[derive(Clone, Copy, Debug, PartialEq, Eq)]
pub struct UserLock {
    /// The participant.
    pub user: Pubkey,
    /// Principal currently locked; zero when the position is closed.
    pub locked_amount: u64,
    /// End of the decay window.
    pub unlock_time: i64,
    /// Start of the decay window.
    pub lock_start_time: i64,
    /// Voting credit issued to the position, undecayed.
    pub initial_ve_amount: u64,
    /// Fees paid out since the position was last opened.
    pub fees_claimed: u64,
    /// The accumulator as of the last settlement.
    pub fee_debt: u128,
    /// Address bump of the position account.
    pub bump: u8,
}

impl UserLock {
    /// The position holds no principal.
    pub open spec fn is_closed(&self) -> bool {
        self.locked_amount == 0
    }

    /// The position holds principal whose unlock time is still to come at
    /// `now`.
    pub open spec fn is_open(&self, now: int) -> bool {
        self.locked_amount > 0 && now < self.unlock_time
    }

    /// The position holds principal that can be withdrawn at `now`.
    pub open spec fn is_expired(&self, now: int) -> bool {
        self.locked_amount > 0 && now >= self.unlock_time
    }

    /// A closed position carries no voting credit.
    pub open spec fn closed_without_credit(&self) -> bool {
        self.locked_amount == 0 ==> self.initial_ve_amount == 0
    }

    /// A position that was never opened: every figure at zero.
    pub open spec fn is_vacant(&self) -> bool {
        &&& self.locked_amount == 0
        &&& self.unlock_time == 0
        &&& self.lock_start_time == 0
        &&& self.initial_ve_amount == 0
        &&& self.fees_claimed == 0
        &&& self.fee_debt == 0
    }

    /// What holds of every position that the operations produce: the decay
    /// window is never longer than the longest lock, it is not empty while
    /// principal is locked, and a closed position is zeroed.
    pub open spec fn wf(&self) -> bool {
        &&& self.lock_start_time <= self.unlock_time
        &&& self.unlock_time - self.lock_start_time <= MAX_LOCK_DURATION
        &&& self.locked_amount > 0 ==> self.lock_start_time < self.unlock_time
        &&& self.locked_amount == 0 ==> {
            &&& self.unlock_time == 0
            &&& self.lock_start_time == 0
            &&& self.initial_ve_amount == 0
        }
    }
}

} // verus!
