//! The protocol as a whole: the ledger together with the positions of all
//! participants, and what holds of the two after any run of operations.

use crate::constants::FEE_PRECISION;
use crate::instructions::{
    claim_fees, deposit_fees, increase_lock_amount, increase_lock_duration, initialize,
    lock_tokens, withdraw,
};
use crate::state::{GlobalState, UserLock};
use crate::utils::{lemma_time_multiplier_nonnegative, lemma_ve_amount_nonnegative};
use anchor_lang::prelude::Pubkey;
use vstd::prelude::*;

verus! {

/// The ledger and every position there is, in the order in which the
/// participants joined.
pub struct Protocol {
    pub global_state: GlobalState,
    pub user_locks: Seq<UserLock>,
}

/// What can be asked of the protocol.
pub enum Operation {
    /// A participant joins: a position that was never opened is added.
    Join { user_lock: UserLock },
    /// A participant opens their position or tops it up.
    LockTokens { user: Pubkey, bump: u8, amount: u64, lock_duration: i64 },
    /// A participant adds principal to their open position.
    IncreaseLockAmount { additional_amount: u64 },
    /// A participant extends the unlock time of their open position.
    IncreaseLockDuration { additional_duration: i64 },
    /// A participant closes their expired position.
    Withdraw,
    /// A participant has their fees settled.
    ClaimFees,
    /// Fees are deposited.
    DepositFees { amount: u64 },
}

/// One operation, the participant on whose position it acts (by the place
/// at which they joined; of no account to a deposit or a join), and the
/// time at which it is carried out.
pub struct Step {
    pub participant: int,
    pub operation: Operation,
    pub current_time: i64,
}

/// The sum of the principal locked in `user_locks`.
pub open spec fn sum_locked(user_locks: Seq<UserLock>) -> int
    decreases user_locks.len(),
{
    if user_locks.len() == 0 {
        0
    } else {
        sum_locked(user_locks.drop_last()) + user_locks.last().locked_amount
    }
}

/// The sum of the undecayed voting credit issued to `user_locks`.
pub open spec fn sum_ve(user_locks: Seq<UserLock>) -> int
    decreases user_locks.len(),
{
    if user_locks.len() == 0 {
        0
    } else {
        sum_ve(user_locks.drop_last()) + user_locks.last().initial_ve_amount
    }
}

/// The ledger's totals are the sums over the positions.
pub open spec fn totals_match(protocol: Protocol) -> bool {
    &&& protocol.global_state.total_locked == sum_locked(protocol.user_locks)
    &&& protocol.global_state.total_ve_supply == sum_ve(protocol.user_locks)
}

/// The totals match, and no closed position carries credit.
pub open spec fn consistent(protocol: Protocol) -> bool {
    &&& totals_match(protocol)
    &&& forall|i: int|
        0 <= i < protocol.user_locks.len() ==> (
        #[trigger] protocol.user_locks[i]).closed_without_credit()
}

/// The protocol with the ledger replaced and one position replaced.
pub open spec fn updated(
    protocol: Protocol,
    participant: int,
    global_state: GlobalState,
    user_lock: UserLock,
) -> Protocol {
    Protocol { global_state, user_locks: protocol.user_locks.update(participant, user_lock) }
}

/// The protocol after `step`. An operation that is refused changes nothing,
/// and neither does one on a participant that there is not, nor the join of
/// a position that is not vacant.
pub open spec fn apply(protocol: Protocol, step: Step) -> Protocol {
    let global_state = protocol.global_state;
    match step.operation {
        Operation::Join { user_lock } => {
            if user_lock.is_vacant() {
                Protocol { user_locks: protocol.user_locks.push(user_lock), ..protocol }
            } else {
                protocol
            }
        },
        Operation::DepositFees { amount } => {
            if deposit_fees::rejection(global_state, amount) is None {
                Protocol {
                    global_state: deposit_fees::global_after(global_state, amount),
                    ..protocol
                }
            } else {
                protocol
            }
        },
        _ => {
            if 0 <= step.participant < protocol.user_locks.len() {
                apply_to_position(protocol, step)
            } else {
                protocol
            }
        },
    }
}

/// The protocol after a step that acts on the position of a participant
/// that there is.
pub open spec fn apply_to_position(protocol: Protocol, step: Step) -> Protocol {
    let global_state = protocol.global_state;
    let user_lock = protocol.user_locks[step.participant];
    let current_time = step.current_time;
    match step.operation {
        Operation::LockTokens { user, bump, amount, lock_duration } => {
            if lock_tokens::rejection(global_state, user_lock, amount, lock_duration, current_time)
                is None {
                updated(
                    protocol,
                    step.participant,
                    lock_tokens::global_after(global_state, amount, lock_duration),
                    lock_tokens::lock_after(
                        global_state,
                        user_lock,
                        user,
                        bump,
                        amount,
                        lock_duration,
                        current_time,
                    ),
                )
            } else {
                protocol
            }
        },
        Operation::IncreaseLockAmount { additional_amount } => {
            if increase_lock_amount::rejection(
                global_state,
                user_lock,
                additional_amount,
                current_time,
            ) is None {
                updated(
                    protocol,
                    step.participant,
                    increase_lock_amount::global_after(
                        global_state,
                        user_lock,
                        additional_amount,
                        current_time,
                    ),
                    increase_lock_amount::lock_after(
                        global_state,
                        user_lock,
                        additional_amount,
                        current_time,
                    ),
                )
            } else {
                protocol
            }
        },
        Operation::IncreaseLockDuration { additional_duration } => {
            if increase_lock_duration::rejection(
                global_state,
                user_lock,
                additional_duration,
                current_time,
            ) is None {
                updated(
                    protocol,
                    step.participant,
                    increase_lock_duration::global_after(
                        global_state,
                        user_lock,
                        additional_duration,
                    ),
                    increase_lock_duration::lock_after(
                        global_state,
                        user_lock,
                        additional_duration,
                    ),
                )
            } else {
                protocol
            }
        },
        Operation::Withdraw => {
            if withdraw::rejection(global_state, user_lock, current_time) is None {
                updated(
                    protocol,
                    step.participant,
                    withdraw::global_after(global_state, user_lock),
                    withdraw::lock_after(user_lock),
                )
            } else {
                protocol
            }
        },
        Operation::ClaimFees => {
            if claim_fees::rejection(global_state, user_lock, current_time) is None {
                updated(
                    protocol,
                    step.participant,
                    global_state,
                    claim_fees::lock_after(global_state, user_lock, current_time),
                )
            } else {
                protocol
            }
        },
        _ => protocol,
    }
}

/// The protocol after `steps`, carried out one after the other.
pub open spec fn run(protocol: Protocol, steps: Seq<Step>) -> Protocol
    decreases steps.len(),
{
    if steps.len() == 0 {
        protocol
    } else {
        apply(run(protocol, steps.drop_last()), steps.last())
    }
}

/// Replacing one position changes each sum by what that position changed
/// by.
pub proof fn lemma_sums_after_update(user_locks: Seq<UserLock>, participant: int, user_lock: UserLock)
    requires
        0 <= participant < user_locks.len(),
    ensures
        sum_locked(user_locks.update(participant, user_lock)) == sum_locked(user_locks)
            - user_locks[participant].locked_amount + user_lock.locked_amount,
        sum_ve(user_locks.update(participant, user_lock)) == sum_ve(user_locks)
            - user_locks[participant].initial_ve_amount + user_lock.initial_ve_amount,
    decreases user_locks.len(),
{
    let after = user_locks.update(participant, user_lock);
    if participant == user_locks.len() - 1 {
        assert(after.drop_last() =~= user_locks.drop_last());
    } else {
        assert(after.drop_last() =~= user_locks.drop_last().update(participant, user_lock));
        lemma_sums_after_update(user_locks.drop_last(), participant, user_lock);
    }
}

/// Adding a position adds its figures to the sums.
pub proof fn lemma_sums_after_push(user_locks: Seq<UserLock>, user_lock: UserLock)
    ensures
        sum_locked(user_locks.push(user_lock)) == sum_locked(user_locks) + user_lock.locked_amount,
        sum_ve(user_locks.push(user_lock)) == sum_ve(user_locks) + user_lock.initial_ve_amount,
{
    assert(user_locks.push(user_lock).drop_last() =~= user_locks);
}

/// The protocol stays consistent where the ledger's totals and one
/// position change by the same amounts, and the position is not left
/// closed with credit.
pub proof fn lemma_balanced_update_is_consistent(
    protocol: Protocol,
    participant: int,
    global_state: GlobalState,
    user_lock: UserLock,
)
    requires
        consistent(protocol),
        0 <= participant < protocol.user_locks.len(),
        user_lock.closed_without_credit(),
        global_state.total_locked - protocol.global_state.total_locked == user_lock.locked_amount
            - protocol.user_locks[participant].locked_amount,
        global_state.total_ve_supply - protocol.global_state.total_ve_supply
            == user_lock.initial_ve_amount - protocol.user_locks[participant].initial_ve_amount,
    ensures
        consistent(updated(protocol, participant, global_state, user_lock)),
{
    lemma_sums_after_update(protocol.user_locks, participant, user_lock);
    let after = updated(protocol, participant, global_state, user_lock);
    assert forall|i: int| 0 <= i < after.user_locks.len() implies (
    #[trigger] after.user_locks[i]).closed_without_credit() by {
        if i != participant {
            assert(after.user_locks[i] == protocol.user_locks[i]);
        }
    }
}

/// The credit that a lock mints is not negative where the lock is not
/// refused.
proof fn lemma_lock_mints_nonnegative(
    global_state: GlobalState,
    user_lock: UserLock,
    amount: u64,
    lock_duration: i64,
    current_time: i64,
)
    requires
        lock_tokens::rejection(global_state, user_lock, amount, lock_duration, current_time)
            is None,
    ensures
        0 <= lock_tokens::ve_minted(global_state, amount, lock_duration) <= u64::MAX,
{
    lemma_time_multiplier_nonnegative(
        lock_duration as int,
        global_state.lock_multiplier_numerator as int,
        global_state.lock_multiplier_denominator as int,
    );
    lemma_ve_amount_nonnegative(
        amount as int,
        lock_tokens::multiplier(global_state, lock_duration),
        global_state.lock_multiplier_denominator as int,
    );
}

/// The credit that an increase mints is not negative where the increase is
/// not refused.
proof fn lemma_increase_mints_nonnegative(
    global_state: GlobalState,
    user_lock: UserLock,
    additional_amount: u64,
    current_time: i64,
)
    requires
        increase_lock_amount::rejection(global_state, user_lock, additional_amount, current_time)
            is None,
    ensures
        0 <= increase_lock_amount::ve_minted(
            global_state,
            user_lock,
            additional_amount,
            current_time,
        ) <= u64::MAX,
{
    lemma_time_multiplier_nonnegative(
        increase_lock_amount::remaining_duration(user_lock, current_time),
        global_state.lock_multiplier_numerator as int,
        global_state.lock_multiplier_denominator as int,
    );
    lemma_ve_amount_nonnegative(
        additional_amount as int,
        increase_lock_amount::multiplier(global_state, user_lock, current_time),
        global_state.lock_multiplier_denominator as int,
    );
}

/// No step breaks the consistency of the protocol.
pub proof fn lemma_apply_keeps_consistency(protocol: Protocol, step: Step)
    requires
        consistent(protocol),
    ensures
        consistent(apply(protocol, step)),
{
    let global_state = protocol.global_state;
    let current_time = step.current_time;
    match step.operation {
        Operation::Join { user_lock } => {
            if user_lock.is_vacant() {
                lemma_sums_after_push(protocol.user_locks, user_lock);
                let after = apply(protocol, step);
                assert forall|i: int| 0 <= i < after.user_locks.len() implies (
                #[trigger] after.user_locks[i]).closed_without_credit() by {
                    if i < protocol.user_locks.len() {
                        assert(after.user_locks[i] == protocol.user_locks[i]);
                    }
                }
            }
        },
        Operation::DepositFees { .. } => {},
        _ => {
            if 0 <= step.participant < protocol.user_locks.len() {
                lemma_apply_to_position_keeps_consistency(protocol, step);
            }
        },
    }
}

/// No step on a position breaks the consistency of the protocol.
proof fn lemma_apply_to_position_keeps_consistency(protocol: Protocol, step: Step)
    requires
        consistent(protocol),
        0 <= step.participant < protocol.user_locks.len(),
    ensures
        consistent(apply_to_position(protocol, step)),
{
    let global_state = protocol.global_state;
    let user_lock = protocol.user_locks[step.participant];
    let current_time = step.current_time;
    let after = apply_to_position(protocol, step);
    assert(user_lock.closed_without_credit());
    if after != protocol {
        match step.operation {
            Operation::LockTokens { user, bump, amount, lock_duration } => {
                lemma_lock_mints_nonnegative(
                    global_state,
                    user_lock,
                    amount,
                    lock_duration,
                    current_time,
                );
            },
            Operation::IncreaseLockAmount { additional_amount } => {
                lemma_increase_mints_nonnegative(
                    global_state,
                    user_lock,
                    additional_amount,
                    current_time,
                );
            },
            Operation::IncreaseLockDuration { additional_duration } => {
                increase_lock_duration::lemma_extension_credit_fits(
                    global_state,
                    user_lock,
                    additional_duration,
                );
            },
            _ => {},
        }
        lemma_balanced_update_is_consistent(
            protocol,
            step.participant,
            after.global_state,
            after.user_locks[step.participant],
        );
        assert(after.user_locks =~= protocol.user_locks.update(
            step.participant,
            after.user_locks[step.participant],
        ));
    }
}

/// A consistent protocol is consistent after any run of steps.
pub proof fn lemma_run_keeps_consistency(protocol: Protocol, steps: Seq<Step>)
    requires
        consistent(protocol),
    ensures
        consistent(run(protocol, steps)),
    decreases steps.len(),
{
    if steps.len() > 0 {
        lemma_run_keeps_consistency(protocol, steps.drop_last());
        lemma_apply_keeps_consistency(run(protocol, steps.drop_last()), steps.last());
    }
}

/// From setup on, after any run of steps, the ledger's total of locked
/// principal is the sum of the principal of all positions, and its total of
/// voting credit is the sum of their undecayed credit.
pub proof fn lemma_totals_match_after_any_run(
    authority: Pubkey,
    base_mint: Pubkey,
    ve_mint: Pubkey,
    token_vault: Pubkey,
    fee_vault: Pubkey,
    lock_multiplier_numerator: u64,
    lock_multiplier_denominator: u64,
    bump: u8,
    steps: Seq<Step>,
)
    ensures
        totals_match(
            run(
                Protocol {
                    global_state: initialize::initial_state(
                        authority,
                        base_mint,
                        ve_mint,
                        token_vault,
                        fee_vault,
                        lock_multiplier_numerator,
                        lock_multiplier_denominator,
                        bump,
                    ),
                    user_locks: Seq::empty(),
                },
                steps,
            ),
        ),
{
    let start = Protocol {
        global_state: initialize::initial_state(
            authority,
            base_mint,
            ve_mint,
            token_vault,
            fee_vault,
            lock_multiplier_numerator,
            lock_multiplier_denominator,
            bump,
        ),
        user_locks: Seq::empty(),
    };
    lemma_run_keeps_consistency(start, steps);
}

/// Every position is well-formed, and no open one has a decay window that
/// starts after `now`.
pub open spec fn positions_wf_at(protocol: Protocol, now: int) -> bool {
    forall|i: int|
        0 <= i < protocol.user_locks.len() ==> {
            &&& (#[trigger] protocol.user_locks[i]).wf()
            &&& protocol.user_locks[i].locked_amount > 0
                ==> protocol.user_locks[i].lock_start_time <= now
        }
}

/// The steps are in the order of their times.
pub open spec fn clock_never_goes_back(steps: Seq<Step>) -> bool {
    forall|i: int, j: int|
        0 <= i <= j < steps.len() ==> (#[trigger] steps[i]).current_time <= (
        #[trigger] steps[j]).current_time
}

/// A step that is not earlier than the start of any open decay window
/// leaves every position well-formed.
pub proof fn lemma_apply_keeps_positions_wf(protocol: Protocol, step: Step, earlier: int)
    requires
        positions_wf_at(protocol, earlier),
        earlier <= step.current_time,
    ensures
        positions_wf_at(apply(protocol, step), step.current_time as int),
{
    let global_state = protocol.global_state;
    let current_time = step.current_time;
    let after = apply(protocol, step);
    assert forall|i: int| 0 <= i < after.user_locks.len() implies {
        &&& (#[trigger] after.user_locks[i]).wf()
        &&& after.user_locks[i].locked_amount > 0 ==> after.user_locks[i].lock_start_time
            <= current_time
    } by {
        if i < protocol.user_locks.len() {
            let user_lock = protocol.user_locks[i];
            assert(user_lock.wf());
            if after.user_locks[i] != user_lock {
                match step.operation {
                    Operation::LockTokens { user, bump, amount, lock_duration } => {
                        lock_tokens::lemma_lock_keeps_position_wf(
                            global_state,
                            user_lock,
                            user,
                            bump,
                            amount,
                            lock_duration,
                            current_time,
                        );
                    },
                    Operation::IncreaseLockAmount { additional_amount } => {
                        increase_lock_amount::lemma_increase_keeps_position_wf(
                            global_state,
                            user_lock,
                            additional_amount,
                            current_time,
                        );
                    },
                    Operation::IncreaseLockDuration { additional_duration } => {
                        increase_lock_duration::lemma_extension_keeps_position_wf(
                            global_state,
                            user_lock,
                            additional_duration,
                            current_time,
                        );
                    },
                    Operation::Withdraw => {
                        withdraw::lemma_withdraw_closes_position(
                            global_state,
                            user_lock,
                            current_time,
                        );
                    },
                    _ => {},
                }
            }
        }
    }
}

/// While the clock never goes back, every position is well-formed after any
/// run of steps: its decay window is never longer than the longest lock,
/// and a closed position is zeroed.
pub proof fn lemma_run_keeps_positions_wf(protocol: Protocol, steps: Seq<Step>, earlier: int)
    requires
        positions_wf_at(protocol, earlier),
        clock_never_goes_back(steps),
        steps.len() > 0 ==> earlier <= steps[0].current_time,
    ensures
        positions_wf_at(
            run(protocol, steps),
            if steps.len() > 0 {
                steps.last().current_time as int
            } else {
                earlier
            },
        ),
    decreases steps.len(),
{
    if steps.len() > 0 {
        let before = steps.drop_last();
        assert forall|i: int, j: int| 0 <= i <= j < before.len() implies (
        #[trigger] before[i]).current_time <= (#[trigger] before[j]).current_time by {
            assert(before[i] == steps[i]);
            assert(before[j] == steps[j]);
        }
        if before.len() > 0 {
            assert(before[0] == steps[0]);
            assert(before.last() == steps[before.len() - 1]);
        }
        lemma_run_keeps_positions_wf(protocol, before, earlier);
        let reached = if before.len() > 0 {
            before.last().current_time as int
        } else {
            earlier
        };
        assert(reached <= steps.last().current_time) by {
            if before.len() > 0 {
                assert(steps[before.len() - 1].current_time <= steps[steps.len() - 1].current_time);
            }
        }
        lemma_apply_keeps_positions_wf(run(protocol, before), steps.last(), reached);
    }
}

/// No step takes anything back from the ledger: the accumulator and the
/// count of deposited fees never fall, the multiplier range and the
/// accounts stay as they were set up, and no participant leaves.
pub proof fn lemma_apply_only_advances(protocol: Protocol, step: Step)
    ensures
        apply(protocol, step).global_state.cumulative_fee_per_ve_token
            >= protocol.global_state.cumulative_fee_per_ve_token,
        apply(protocol, step).global_state.total_fees_deposited
            >= protocol.global_state.total_fees_deposited,
        apply(protocol, step).global_state.lock_multiplier_numerator
            == protocol.global_state.lock_multiplier_numerator,
        apply(protocol, step).global_state.lock_multiplier_denominator
            == protocol.global_state.lock_multiplier_denominator,
        apply(protocol, step).global_state.authority == protocol.global_state.authority,
        apply(protocol, step).global_state.base_mint == protocol.global_state.base_mint,
        apply(protocol, step).global_state.ve_mint == protocol.global_state.ve_mint,
        apply(protocol, step).global_state.token_vault == protocol.global_state.token_vault,
        apply(protocol, step).global_state.fee_vault == protocol.global_state.fee_vault,
        apply(protocol, step).global_state.bump == protocol.global_state.bump,
        apply(protocol, step).user_locks.len() >= protocol.user_locks.len(),
{
    match step.operation {
        Operation::DepositFees { amount } => {
            if deposit_fees::rejection(protocol.global_state, amount) is None {
                deposit_fees::lemma_deposit_only_advances(protocol.global_state, amount);
            }
        },
        _ => {},
    }
}

/// The sum of what the positions can be paid against the ledger, whenever
/// they claim.
pub open spec fn sum_entitlement(global_state: GlobalState, user_locks: Seq<UserLock>) -> int
    decreases user_locks.len(),
{
    if user_locks.len() == 0 {
        0
    } else {
        sum_entitlement(global_state, user_locks.drop_last()) + claim_fees::entitlement(
            global_state,
            user_locks.last(),
        )
    }
}

/// Every position is settled at the ledger's accumulator.
pub open spec fn settled(protocol: Protocol) -> bool {
    forall|i: int|
        0 <= i < protocol.user_locks.len() ==> (#[trigger] protocol.user_locks[i]).fee_debt
            == protocol.global_state.cumulative_fee_per_ve_token
}

/// At the accumulator's scale, positions that were settled when the
/// accumulator gained `gain` are entitled to no more than their credit
/// times the gain.
proof fn lemma_entitlements_within_gain(
    global_state: GlobalState,
    user_locks: Seq<UserLock>,
    gain: int,
)
    requires
        0 <= gain,
        forall|i: int|
            0 <= i < user_locks.len() ==> global_state.cumulative_fee_per_ve_token - (
            #[trigger] user_locks[i]).fee_debt == gain,
    ensures
        sum_entitlement(global_state, user_locks) * FEE_PRECISION <= sum_ve(user_locks) * gain,
    decreases user_locks.len(),
{
    if user_locks.len() > 0 {
        let before = user_locks.drop_last();
        let last = user_locks.last();
        assert forall|i: int| 0 <= i < before.len() implies global_state.cumulative_fee_per_ve_token
            - (#[trigger] before[i]).fee_debt == gain by {
            assert(before[i] == user_locks[i]);
        }
        lemma_entitlements_within_gain(global_state, before, gain);
        claim_fees::lemma_pending_within_entitlement(global_state, last, 0);
        let earlier = sum_entitlement(global_state, before);
        let share = claim_fees::entitlement(global_state, last);
        assert((earlier + share) * FEE_PRECISION == earlier * FEE_PRECISION + share
            * FEE_PRECISION) by (nonlinear_arith);
        assert((sum_ve(before) + last.initial_ve_amount) * gain == sum_ve(before) * gain
            + last.initial_ve_amount * gain) by (nonlinear_arith);
    } else {
        assert(0 * gain == 0);
    }
}

/// A deposit covers what it entitles the positions to: where every position
/// was settled before it, all of them together can be paid no more than was
/// deposited, whenever each of them claims.
pub proof fn lemma_deposit_covers_all_entitlements(protocol: Protocol, amount: u64)
    requires
        totals_match(protocol),
        settled(protocol),
        deposit_fees::rejection(protocol.global_state, amount) is None,
    ensures
        sum_entitlement(
            deposit_fees::global_after(protocol.global_state, amount),
            protocol.user_locks,
        ) <= amount,
{
    let global_state = protocol.global_state;
    let after = deposit_fees::global_after(global_state, amount);
    let gain = deposit_fees::fee_per_ve_token(global_state, amount);
    let total = sum_entitlement(after, protocol.user_locks);
    deposit_fees::lemma_deposit_only_advances(global_state, amount);
    deposit_fees::lemma_deposit_credits_at_most_the_amount(global_state, amount);
    lemma_entitlements_within_gain(after, protocol.user_locks, gain);
    assert(total <= amount) by (nonlinear_arith)
        requires
            total * FEE_PRECISION <= amount * FEE_PRECISION,
            FEE_PRECISION > 0,
    ;
}

} // verus!
