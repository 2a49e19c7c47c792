use anchor_lang::prelude::Pubkey;
use solana_fractional_ownership_token::constants::{
    FEE_PRECISION, MAX_LOCK_DURATION, MIN_LOCK_DURATION,
};
use solana_fractional_ownership_token::error::ErrorCode;
use solana_fractional_ownership_token::state::{GlobalState, UserLock};
use solana_fractional_ownership_token::utils::calculate_current_ve_balance;
use solana_fractional_ownership_token::{
    claim_fees, deposit_fees, increase_lock_amount, initialize, lock_tokens, withdraw,
};

const NOW: i64 = 1_700_000_000;

fn key(byte: u8) -> Pubkey {
    Pubkey::new_from_array([byte; 32])
}

fn ledger(numerator: u64, denominator: u64) -> GlobalState {
    initialize(key(1), key(2), key(3), key(4), key(5), numerator, denominator, 254)
}

fn vacant() -> UserLock {
    UserLock {
        user: Pubkey::default(),
        locked_amount: 0,
        unlock_time: 0,
        lock_start_time: 0,
        initial_ve_amount: 0,
        fees_claimed: 0,
        fee_debt: 0,
        bump: 0,
    }
}

#[test]
fn deposit_advances_accumulator_by_share_per_credit() {
    let mut global = GlobalState { total_ve_supply: 4000, total_locked: 4000, ..ledger(4, 1) };
    let before = global;
    assert_eq!(deposit_fees(&mut global, 400), Ok(()));
    assert_eq!(
        global,
        GlobalState {
            total_fees_deposited: 400,
            cumulative_fee_per_ve_token: 100_000_000_000_000_000,
            ..before
        }
    );
    assert_eq!(deposit_fees(&mut global, 1), Ok(()));
    // 10^18 / 4000
    assert_eq!(global.cumulative_fee_per_ve_token, 100_250_000_000_000_000);
    assert_eq!(global.total_fees_deposited, 401);
}

#[test]
fn deposit_share_rounds_down() {
    let mut global = GlobalState { total_ve_supply: 3, ..ledger(4, 1) };
    deposit_fees(&mut global, 1).unwrap();
    assert_eq!(global.cumulative_fee_per_ve_token, 333_333_333_333_333_333);
    let mut global = GlobalState { total_ve_supply: u64::MAX, ..ledger(4, 1) };
    deposit_fees(&mut global, 18).unwrap();
    // 18 * 10^18 / (2^64 - 1) = 0.97..
    assert_eq!(global.cumulative_fee_per_ve_token, 0);
    deposit_fees(&mut global, 19).unwrap();
    assert_eq!(global.cumulative_fee_per_ve_token, 1);
    assert_eq!(global.total_fees_deposited, 37);
}

#[test]
fn deposit_without_voters_is_absorbed() {
    let mut global = ledger(4, 1);
    let before = global;
    assert_eq!(deposit_fees(&mut global, 400), Ok(()));
    assert_eq!(global, GlobalState { total_fees_deposited: 400, ..before });
    assert_eq!(global.cumulative_fee_per_ve_token, 0);
    // who locks afterwards earns nothing of it
    let mut lock = vacant();
    lock_tokens(&mut global, &mut lock, key(9), 7, 1000, MIN_LOCK_DURATION, NOW).unwrap();
    assert_eq!(claim_fees(&global, &mut lock, NOW), Err(ErrorCode::NoFeesToClaim));
}

#[test]
fn deposit_refuses_zero_amount() {
    let mut global = GlobalState { total_ve_supply: 4000, ..ledger(4, 1) };
    let before = global;
    assert_eq!(deposit_fees(&mut global, 0), Err(ErrorCode::InvalidAmount));
    assert_eq!(global, before);
}

#[test]
fn deposit_overflow_is_refused_without_change() {
    let mut global = GlobalState {
        total_ve_supply: 4000,
        total_fees_deposited: u64::MAX - 5,
        ..ledger(4, 1)
    };
    let before = global;
    assert_eq!(deposit_fees(&mut global, 6), Err(ErrorCode::MathOverflow));
    assert_eq!(global, before);
    assert_eq!(deposit_fees(&mut global, 5), Ok(()));
    assert_eq!(global.total_fees_deposited, u64::MAX);

    let mut global = GlobalState {
        total_ve_supply: 1,
        cumulative_fee_per_ve_token: u128::MAX - FEE_PRECISION + 1,
        ..ledger(4, 1)
    };
    let before = global;
    assert_eq!(deposit_fees(&mut global, 1), Err(ErrorCode::MathOverflow));
    assert_eq!(global, before);
    global.cumulative_fee_per_ve_token -= 1;
    assert_eq!(deposit_fees(&mut global, 1), Ok(()));
    assert_eq!(global.cumulative_fee_per_ve_token, u128::MAX);
    assert_eq!(global.total_fees_deposited, 1);
}

#[test]
fn deposit_of_the_largest_amount_fits_the_wide_product() {
    let mut global = GlobalState { total_ve_supply: 1, ..ledger(4, 1) };
    assert_eq!(deposit_fees(&mut global, u64::MAX), Ok(()));
    assert_eq!(
        global.cumulative_fee_per_ve_token,
        18_446_744_073_709_551_615_000_000_000_000_000_000
    );
}

#[test]
fn two_participants_share_a_deposit_by_credit() {
    let mut global = ledger(4, 1);
    let mut a = vacant();
    let mut b = vacant();
    assert_eq!(lock_tokens(&mut global, &mut a, key(10), 1, 1000, MIN_LOCK_DURATION, NOW), Ok(1000));
    assert_eq!(lock_tokens(&mut global, &mut b, key(11), 2, 3000, MIN_LOCK_DURATION, NOW), Ok(3000));
    assert_eq!(global.total_ve_supply, 4000);
    deposit_fees(&mut global, 400).unwrap();
    assert_eq!(global.cumulative_fee_per_ve_token, 100_000_000_000_000_000);
    assert_eq!(claim_fees(&global, &mut a, NOW), Ok(100));
    assert_eq!(claim_fees(&global, &mut b, NOW), Ok(300));
    assert_eq!(a.fees_claimed, 100);
    assert_eq!(b.fees_claimed, 300);
    assert_eq!(a.fee_debt, 100_000_000_000_000_000);
    assert_eq!(b.fee_debt, 100_000_000_000_000_000);
}

#[test]
fn claim_pays_by_decayed_balance() {
    let mut global = ledger(4, 1);
    let mut lock = vacant();
    lock_tokens(&mut global, &mut lock, key(9), 7, 1000, MAX_LOCK_DURATION, NOW).unwrap();
    deposit_fees(&mut global, 4000).unwrap();
    assert_eq!(global.cumulative_fee_per_ve_token, FEE_PRECISION);
    let before = lock;
    // a quarter of the window has passed: 3000 of 4000 credit is left
    assert_eq!(claim_fees(&global, &mut lock, NOW + MAX_LOCK_DURATION / 4), Ok(3000));
    assert_eq!(
        lock,
        UserLock { fees_claimed: 3000, fee_debt: FEE_PRECISION, ..before }
    );
}

#[test]
fn claim_twice_pays_once() {
    let mut global = ledger(4, 1);
    let mut lock = vacant();
    lock_tokens(&mut global, &mut lock, key(9), 7, 1000, MAX_LOCK_DURATION, NOW).unwrap();
    deposit_fees(&mut global, 400).unwrap();
    let ledger_before = global;
    let paid = claim_fees(&global, &mut lock, NOW + 10).unwrap();
    assert!(paid > 0);
    assert_eq!(paid, 399);
    let settled = lock;
    assert_eq!(claim_fees(&global, &mut lock, NOW + 10), Err(ErrorCode::NoFeesToClaim));
    assert_eq!(claim_fees(&global, &mut lock, NOW + 11), Err(ErrorCode::NoFeesToClaim));
    assert_eq!(lock, settled);
    assert_eq!(global, ledger_before);
    // a new deposit can be claimed again
    deposit_fees(&mut global, 800).unwrap();
    assert_eq!(claim_fees(&global, &mut lock, NOW + 10), Ok(799));
    assert_eq!(lock.fees_claimed, 399 + 799);
}

#[test]
fn claim_at_unlock_time_has_no_voting_power() {
    let mut global = ledger(4, 1);
    let mut lock = vacant();
    assert_eq!(lock_tokens(&mut global, &mut lock, key(9), 7, 1000, MIN_LOCK_DURATION, NOW), Ok(1000));
    deposit_fees(&mut global, 400).unwrap();
    let before = lock;
    assert_eq!(
        calculate_current_ve_balance(
            lock.initial_ve_amount,
            lock.lock_start_time,
            lock.unlock_time,
            lock.unlock_time
        ),
        Ok(0)
    );
    assert_eq!(
        claim_fees(&global, &mut lock, NOW + MIN_LOCK_DURATION),
        Err(ErrorCode::NoVotingPower)
    );
    assert_eq!(claim_fees(&global, &mut lock, i64::MAX), Err(ErrorCode::NoVotingPower));
    assert_eq!(lock, before);
    // one second earlier the balance has already rounded down to nothing
    assert_eq!(
        claim_fees(&global, &mut lock, NOW + MIN_LOCK_DURATION - 1),
        Err(ErrorCode::NoVotingPower)
    );
    assert_eq!(lock, before);
    assert_eq!(claim_fees(&global, &mut lock, NOW), Ok(400));
}

#[test]
fn claim_refusals() {
    let mut global = ledger(4, 1);
    let mut lock = vacant();
    assert_eq!(claim_fees(&global, &mut lock, NOW), Err(ErrorCode::NoExistingLock));
    lock_tokens(&mut global, &mut lock, key(9), 7, 1000, MIN_LOCK_DURATION, NOW).unwrap();
    assert_eq!(claim_fees(&global, &mut lock, NOW), Err(ErrorCode::NoFeesToClaim));
    // a position with principal and no credit
    let mut bare = UserLock { initial_ve_amount: 0, ..lock };
    assert_eq!(claim_fees(&global, &mut bare, NOW), Err(ErrorCode::NoVotingPower));
    // a position that is settled past the accumulator
    let mut ahead = UserLock { fee_debt: 1, ..lock };
    assert_eq!(claim_fees(&global, &mut ahead, NOW), Err(ErrorCode::MathOverflow));
    assert_eq!(ahead, UserLock { fee_debt: 1, ..lock });
    // a window too long to compute with
    let mut long = UserLock { lock_start_time: i64::MIN, unlock_time: i64::MAX, ..lock };
    assert_eq!(claim_fees(&global, &mut long, NOW), Err(ErrorCode::MathOverflow));
}

#[test]
fn claim_overflow_is_refused_without_change() {
    let mut global = ledger(4, 1);
    let mut lock = vacant();
    lock_tokens(&mut global, &mut lock, key(9), 7, 1000, MIN_LOCK_DURATION, NOW).unwrap();
    let before = lock;
    // the product leaves 128 bits
    global.cumulative_fee_per_ve_token = u128::MAX;
    assert_eq!(claim_fees(&global, &mut lock, NOW), Err(ErrorCode::MathOverflow));
    // the share leaves 64 bits: 1000 * (2^64 * 10^15) / 10^18 = 2^64
    global.cumulative_fee_per_ve_token = (1u128 << 64) * 1_000_000_000_000_000;
    assert_eq!(claim_fees(&global, &mut lock, NOW), Err(ErrorCode::MathOverflow));
    assert_eq!(lock, before);
    // the count of claimed fees does not fit
    global.cumulative_fee_per_ve_token = FEE_PRECISION;
    lock.fees_claimed = u64::MAX - 999;
    let before = lock;
    assert_eq!(claim_fees(&global, &mut lock, NOW), Err(ErrorCode::MathOverflow));
    assert_eq!(lock, before);
    lock.fees_claimed = u64::MAX - 1000;
    assert_eq!(claim_fees(&global, &mut lock, NOW), Ok(1000));
    assert_eq!(lock.fees_claimed, u64::MAX);
}

#[test]
fn claim_of_the_largest_share_that_fits() {
    let mut global = ledger(4, 1);
    let mut lock = vacant();
    lock_tokens(&mut global, &mut lock, key(9), 7, 1000, MIN_LOCK_DURATION, NOW).unwrap();
    global.cumulative_fee_per_ve_token = (1u128 << 64) * 1_000_000_000_000_000 - 1;
    assert_eq!(claim_fees(&global, &mut lock, NOW), Ok(u64::MAX));
}

#[test]
fn reopened_position_earns_nothing_from_the_past() {
    let mut global = ledger(4, 1);
    let mut a = vacant();
    let mut b = vacant();
    lock_tokens(&mut global, &mut a, key(10), 1, 1000, MIN_LOCK_DURATION, NOW).unwrap();
    lock_tokens(&mut global, &mut b, key(11), 2, 1000, MAX_LOCK_DURATION, NOW).unwrap();
    deposit_fees(&mut global, 5000).unwrap();
    assert_eq!(global.cumulative_fee_per_ve_token, FEE_PRECISION);
    // a never claims, and withdraws
    let later = NOW + MIN_LOCK_DURATION;
    withdraw(&mut global, &mut a, later).unwrap();
    assert_eq!(a.fee_debt, 0);
    // opening again settles a at the accumulator
    lock_tokens(&mut global, &mut a, key(10), 1, 1000, MIN_LOCK_DURATION, later).unwrap();
    assert_eq!(a.fee_debt, FEE_PRECISION);
    assert_eq!(claim_fees(&global, &mut a, later), Err(ErrorCode::NoFeesToClaim));
    deposit_fees(&mut global, 5000).unwrap();
    assert_eq!(claim_fees(&global, &mut a, later), Ok(1000));
}

#[test]
fn accumulator_and_deposit_count_never_fall() {
    let mut global = ledger(400, 100);
    let mut lock = vacant();
    let mut accumulator = 0u128;
    let mut deposited = 0u64;
    let mut now = NOW;
    lock_tokens(&mut global, &mut lock, key(9), 7, 12_345, MAX_LOCK_DURATION, now).unwrap();
    for amount in [1u64, 999, 5, 123_456_789, 2, 77] {
        deposit_fees(&mut global, amount).unwrap();
        assert!(global.cumulative_fee_per_ve_token >= accumulator);
        assert!(global.total_fees_deposited > deposited);
        accumulator = global.cumulative_fee_per_ve_token;
        deposited = global.total_fees_deposited;
        now += 1000;
        let _ = claim_fees(&global, &mut lock, now);
        let _ = lock_tokens(&mut global, &mut lock, key(9), 7, amount, MIN_LOCK_DURATION, now);
        assert_eq!(global.cumulative_fee_per_ve_token, accumulator);
        assert_eq!(global.total_fees_deposited, deposited);
        assert_eq!(global.lock_multiplier_numerator, 400);
        assert_eq!(global.lock_multiplier_denominator, 100);
    }
    assert_eq!(deposited, 123_457_873);
}

#[test]
fn refusals_have_their_messages() {
    assert_eq!(ErrorCode::InvalidAmount.message(), "Invalid amount: must be greater than 0");
    assert_eq!(
        ErrorCode::InvalidLockDuration.message(),
        "Invalid lock duration: must be between 7 days and 4 years"
    );
    assert_eq!(ErrorCode::ExistingLockNotExpired.message(), "Existing lock has not expired yet");
    assert_eq!(ErrorCode::NoExistingLock.message(), "No existing lock found");
    assert_eq!(ErrorCode::LockExpired.message(), "Lock has expired, please withdraw first");
    assert_eq!(ErrorCode::LockNotExpired.message(), "Lock has not expired yet");
    assert_eq!(ErrorCode::NoVotingPower.message(), "No voting power available");
    assert_eq!(ErrorCode::NoFeesToClaim.message(), "No fees available to claim");
    assert_eq!(ErrorCode::MathOverflow.message(), "Math overflow");
}

#[test]
fn claims_of_one_deposit_stay_within_it() {
    let mut global = ledger(400, 100);
    let mut locks = [vacant(), vacant(), vacant()];
    lock_tokens(&mut global, &mut locks[0], key(10), 1, 1_000, 30 * 86_400, NOW).unwrap();
    lock_tokens(&mut global, &mut locks[1], key(11), 1, 777, MAX_LOCK_DURATION, NOW).unwrap();
    lock_tokens(&mut global, &mut locks[2], key(12), 1, 13, 400 * 86_400, NOW).unwrap();
    assert_eq!(global.total_ve_supply, 1040 + 3108 + 23);
    deposit_fees(&mut global, 1_000_003).unwrap();
    // 1000003 * 10^18 / 4171
    assert_eq!(global.cumulative_fee_per_ve_token, 239_751_378_566_291_057_300);
    let mut paid = 0u64;
    for (lock, after) in locks.iter_mut().zip([0i64, 5, 86_400]) {
        paid += claim_fees(&global, lock, NOW + after).unwrap();
    }
    // 249341 + 744907 + 5274, the last two on balances of 3107 and 22
    assert_eq!(paid, 999_522);
    assert!(paid <= 1_000_003);
}

#[test]
fn credit_added_after_a_deposit_shares_in_it() {
    // a position is settled when it is opened and when it claims, not when
    // it grows: credit that is added before the claim earns on what was
    // deposited since the last settlement
    let mut global = ledger(4, 1);
    let mut lock = vacant();
    lock_tokens(&mut global, &mut lock, key(9), 7, 1000, MIN_LOCK_DURATION, NOW).unwrap();
    deposit_fees(&mut global, 400).unwrap();
    assert_eq!(lock.fee_debt, 0);
    increase_lock_amount(&mut global, &mut lock, 1000, NOW).unwrap();
    assert_eq!(lock.fee_debt, 0);
    assert_eq!(lock.initial_ve_amount, 2000);
    // 2000 * (400 * 10^18 / 1000) / 10^18
    assert_eq!(claim_fees(&global, &mut lock, NOW), Ok(800));
}
