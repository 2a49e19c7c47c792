//! Depositing fees: the accumulator advances by what each unit of voting
//! credit earns.

use crate::constants::FEE_PRECISION;
use crate::error::ErrorCode;
use crate::state::GlobalState;
use vstd::arithmetic::div_mod::{lemma_div_pos_is_pos, lemma_fundamental_div_mod};
use vstd::arithmetic::mul::lemma_mul_nonnegative;
use vstd::prelude::*;

verus! {

/// What a deposit of `amount` adds to the accumulator: the amount per unit
/// of voting credit, scaled and rounded down, and nothing while no credit
/// is issued.
pub open spec fn fee_per_ve_token(global_state: GlobalState, amount: u64) -> int {
    if global_state.total_ve_supply > 0 {
        amount * FEE_PRECISION / (global_state.total_ve_supply as int)
    } else {
        0
    }
}

/// Why the deposit is refused, if it is: the first of these that applies.
pub open spec fn rejection(global_state: GlobalState, amount: u64) -> Option<ErrorCode> {
    if amount == 0 {
        Some(ErrorCode::InvalidAmount)
    } else if global_state.total_fees_deposited + amount > u64::MAX
        || global_state.cumulative_fee_per_ve_token + fee_per_ve_token(global_state, amount)
        > u128::MAX {
        Some(ErrorCode::MathOverflow)
    } else {
        None
    }
}

/// The ledger after a deposit that is not refused. While no voting credit
/// is issued the deposit is counted and the accumulator stands still: no
/// position will ever be paid from it.
pub open spec fn global_after(global_state: GlobalState, amount: u64) -> GlobalState {
    GlobalState {
        total_fees_deposited: (global_state.total_fees_deposited + amount) as u64,
        cumulative_fee_per_ve_token: (global_state.cumulative_fee_per_ve_token + fee_per_ve_token(
            global_state,
            amount,
        )) as u128,
        ..global_state
    }
}

/// Records a deposit of `amount` of the fee asset.
///
/// On success the ledger is updated; the caller moves `amount` into the fee
/// vault. On refusal the ledger does not change.
pub fn handler(global_state: &mut GlobalState, amount: u64) -> (result: Result<(), ErrorCode>)
    ensures
        match result {
            Ok(_) => {
                &&& rejection(*old(global_state), amount) is None
                &&& *final(global_state) == global_after(*old(global_state), amount)
            },
            Err(e) => {
                &&& rejection(*old(global_state), amount) == Some(e)
                &&& *final(global_state) == *old(global_state)
            },
        },
{
    if amount == 0 {
        return Err(ErrorCode::InvalidAmount);
    }
    let total_fees_deposited = match global_state.total_fees_deposited.checked_add(amount) {
        Some(sum) => sum,
        None => {
            return Err(ErrorCode::MathOverflow);
        },
    };
    let mut cumulative_fee_per_ve_token = global_state.cumulative_fee_per_ve_token;
    if global_state.total_ve_supply > 0 {
        proof {
            assert(amount * FEE_PRECISION <= 0xffff_ffff_ffff_ffff * 1_000_000_000_000_000_000)
                by (nonlinear_arith)
                requires
                    0 <= amount <= 0xffff_ffff_ffff_ffff,
                    FEE_PRECISION == 1_000_000_000_000_000_000,
            ;
        }
        let fee_per_ve_token: u128 = (amount as u128) * FEE_PRECISION / (
        global_state.total_ve_supply as u128);
        cumulative_fee_per_ve_token =
        match global_state.cumulative_fee_per_ve_token.checked_add(fee_per_ve_token) {
            Some(sum) => sum,
            None => {
                return Err(ErrorCode::MathOverflow);
            },
        };
    }
    global_state.total_fees_deposited = total_fees_deposited;
    global_state.cumulative_fee_per_ve_token = cumulative_fee_per_ve_token;
    Ok(())
}

/// What a deposit adds to the accumulator is never negative, so a deposit
/// that is not refused lowers neither the accumulator nor the count of
/// deposited fees.
pub proof fn lemma_deposit_only_advances(global_state: GlobalState, amount: u64)
    requires
        rejection(global_state, amount) is None,
    ensures
        0 <= fee_per_ve_token(global_state, amount),
        global_after(global_state, amount).cumulative_fee_per_ve_token
            >= global_state.cumulative_fee_per_ve_token,
        global_after(global_state, amount).total_fees_deposited
            == global_state.total_fees_deposited + amount,
{
    if global_state.total_ve_supply > 0 {
        lemma_mul_nonnegative(amount as int, FEE_PRECISION as int);
        lemma_div_pos_is_pos(amount * FEE_PRECISION, global_state.total_ve_supply as int);
    }
}

/// A deposit never credits the holders with more than was deposited: what
/// it adds to the accumulator, times the credit in issue, does not exceed
/// the amount at the accumulator's scale.
pub proof fn lemma_deposit_credits_at_most_the_amount(global_state: GlobalState, amount: u64)
    ensures
        0 <= global_state.total_ve_supply * fee_per_ve_token(global_state, amount) <= amount
            * FEE_PRECISION,
{
    let supply = global_state.total_ve_supply as int;
    let scaled = amount * FEE_PRECISION;
    lemma_mul_nonnegative(amount as int, FEE_PRECISION as int);
    if supply > 0 {
        lemma_fundamental_div_mod(scaled, supply);
        lemma_div_pos_is_pos(scaled, supply);
        lemma_mul_nonnegative(supply, scaled / supply);
        assert(0 <= scaled % supply);
    } else {
        assert(supply * 0 == 0);
    }
}

} // verus!
