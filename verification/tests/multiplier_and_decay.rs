use solana_fractional_ownership_token::constants::{
    FEE_PRECISION, MAX_LOCK_DURATION, MAX_LOCK_MULTIPLIER, MIN_LOCK_DURATION,
};
use solana_fractional_ownership_token::error::ErrorCode;
use solana_fractional_ownership_token::utils::{
    calculate_current_ve_balance, calculate_merged_unlock_time, calculate_time_multiplier,
    calculate_ve_amount,
};

#[test]
fn constants_have_their_values() {
    assert_eq!(MIN_LOCK_DURATION, 604_800);
    assert_eq!(MAX_LOCK_DURATION, 126_144_000);
    assert_eq!(MAX_LOCK_MULTIPLIER, 4);
    assert_eq!(FEE_PRECISION, 1_000_000_000_000_000_000);
}

#[test]
fn multiplier_at_minimum_is_denominator() {
    assert_eq!(calculate_time_multiplier(MIN_LOCK_DURATION, 4, 1), Ok(1));
    assert_eq!(calculate_time_multiplier(MIN_LOCK_DURATION, 400, 100), Ok(100));
}

#[test]
fn multiplier_at_maximum_is_numerator() {
    assert_eq!(calculate_time_multiplier(MAX_LOCK_DURATION, 4, 1), Ok(4));
    assert_eq!(calculate_time_multiplier(MAX_LOCK_DURATION, 400, 100), Ok(400));
}

#[test]
fn multiplier_is_clamped_outside_the_bounds() {
    assert_eq!(calculate_time_multiplier(0, 4, 1), Ok(1));
    assert_eq!(calculate_time_multiplier(-5, 4, 1), Ok(1));
    assert_eq!(calculate_time_multiplier(i64::MIN, 4, 1), Ok(1));
    assert_eq!(calculate_time_multiplier(MAX_LOCK_DURATION + 1, 4, 1), Ok(4));
    assert_eq!(calculate_time_multiplier(i64::MAX, 4, 1), Ok(4));
}

#[test]
fn multiplier_interpolates_and_rounds_down() {
    let half = MIN_LOCK_DURATION + (MAX_LOCK_DURATION - MIN_LOCK_DURATION) / 2;
    assert_eq!(half, 63_374_400);
    // 1 + 62769600 * 3 / 125539200 = 1 + 1 (from 1.5)
    assert_eq!(calculate_time_multiplier(half, 4, 1), Ok(2));
    // 100 + 62769600 * 300 / 125539200 = 100 + 150
    assert_eq!(calculate_time_multiplier(half, 400, 100), Ok(250));
    // thirty days: 100 + 1987200 * 300 / 125539200 = 100 + 4 (from 4.74..)
    assert_eq!(calculate_time_multiplier(30 * 86_400, 400, 100), Ok(104));
    // one second past the minimum earns nothing more yet
    assert_eq!(calculate_time_multiplier(MIN_LOCK_DURATION + 1, 4, 1), Ok(1));
    // one second short of the maximum: 1 + 125539199 * 3 / 125539200 = 1 + 2
    assert_eq!(calculate_time_multiplier(MAX_LOCK_DURATION - 1, 4, 1), Ok(3));
}

#[test]
fn multiplier_never_falls_as_duration_grows() {
    let mut previous = 0u64;
    let mut duration = MIN_LOCK_DURATION - 1000;
    while duration <= MAX_LOCK_DURATION + 1000 {
        let multiplier = calculate_time_multiplier(duration, 4000, 1000).unwrap();
        assert!(multiplier >= previous);
        assert!(multiplier >= 1000 && multiplier <= 4000);
        previous = multiplier;
        duration += 997_331;
    }
    let last = calculate_time_multiplier(MAX_LOCK_DURATION, 4000, 1000).unwrap();
    assert!(last >= previous);
    assert_eq!(last, 4000);
}

#[test]
fn multiplier_with_equal_bounds_is_constant() {
    assert_eq!(calculate_time_multiplier(MIN_LOCK_DURATION + 5, 7, 7), Ok(7));
    assert_eq!(calculate_time_multiplier(MAX_LOCK_DURATION - 5, 7, 7), Ok(7));
}

#[test]
fn multiplier_range_below_zero_is_overflow() {
    assert_eq!(
        calculate_time_multiplier(MIN_LOCK_DURATION + 1, 1, 4),
        Err(ErrorCode::MathOverflow)
    );
    assert_eq!(
        calculate_time_multiplier(MAX_LOCK_DURATION - 1, 1, 4),
        Err(ErrorCode::MathOverflow)
    );
    // at the bounds the range is not needed
    assert_eq!(calculate_time_multiplier(MIN_LOCK_DURATION, 1, 4), Ok(4));
    assert_eq!(calculate_time_multiplier(MAX_LOCK_DURATION, 1, 4), Ok(1));
}

#[test]
fn multiplier_product_is_taken_wide() {
    // (duration - min) * (numerator - denominator) is far beyond 64 bits here
    let half = MIN_LOCK_DURATION + (MAX_LOCK_DURATION - MIN_LOCK_DURATION) / 2;
    assert_eq!(calculate_time_multiplier(half, u64::MAX, 1), Ok(1 + (u64::MAX - 1) / 2));
    assert_eq!(calculate_time_multiplier(MAX_LOCK_DURATION - 1, u64::MAX, 0), Ok(18446743926769439891));
}

#[test]
fn decay_at_start_is_the_whole_credit() {
    assert_eq!(calculate_current_ve_balance(1000, 500, 600, 500), Ok(1000));
    assert_eq!(calculate_current_ve_balance(1000, 500, 600, 499), Ok(1000));
    assert_eq!(calculate_current_ve_balance(1000, 500, 600, i64::MIN), Ok(1000));
}

#[test]
fn decay_at_unlock_is_zero() {
    assert_eq!(calculate_current_ve_balance(1000, 500, 600, 600), Ok(0));
    assert_eq!(calculate_current_ve_balance(1000, 500, 600, 601), Ok(0));
    assert_eq!(calculate_current_ve_balance(u64::MAX, 500, 600, i64::MAX), Ok(0));
}

#[test]
fn decay_is_linear_and_rounds_down() {
    assert_eq!(calculate_current_ve_balance(1000, 0, 100, 25), Ok(750));
    assert_eq!(calculate_current_ve_balance(1000, 0, 100, 50), Ok(500));
    assert_eq!(calculate_current_ve_balance(1000, 0, 100, 99), Ok(10));
    // 1000 * 2 / 3 = 666.6..
    assert_eq!(calculate_current_ve_balance(1000, 0, 3, 1), Ok(666));
    // 7 * 1 / 3 = 2.3..
    assert_eq!(calculate_current_ve_balance(7, 0, 3, 2), Ok(2));
    assert_eq!(calculate_current_ve_balance(1, 0, 3, 1), Ok(0));
    assert_eq!(calculate_current_ve_balance(u64::MAX, 0, 4, 1), Ok(13835058055282163711));
}

#[test]
fn decay_never_grows_as_time_advances() {
    let start = 1_700_000_000i64;
    let unlock = start + MAX_LOCK_DURATION;
    let mut previous = u64::MAX;
    let mut now = start - 10;
    while now <= unlock + 10 {
        let balance = calculate_current_ve_balance(123_456_789, start, unlock, now).unwrap();
        assert!(balance <= previous);
        assert!(balance <= 123_456_789);
        previous = balance;
        now += 1_234_567;
    }
    assert_eq!(calculate_current_ve_balance(123_456_789, start, unlock, unlock), Ok(0));
}

#[test]
fn decay_of_an_empty_window_is_zero() {
    assert_eq!(calculate_current_ve_balance(1000, 0, 0, 0), Ok(0));
    assert_eq!(calculate_current_ve_balance(1000, 600, 500, 550), Ok(0));
    assert_eq!(calculate_current_ve_balance(1000, 600, 500, 400), Ok(1000));
}

#[test]
fn decay_window_too_long_is_overflow() {
    assert_eq!(
        calculate_current_ve_balance(1000, i64::MIN, i64::MAX, 0),
        Err(ErrorCode::MathOverflow)
    );
    assert_eq!(calculate_current_ve_balance(1000, -2, i64::MAX, 0), Err(ErrorCode::MathOverflow));
    // the longest window that fits
    assert_eq!(calculate_current_ve_balance(i64::MAX as u64, -1, i64::MAX - 1, 0), Ok(i64::MAX as u64 - 1));
    // outside the window its length is not needed
    assert_eq!(calculate_current_ve_balance(1000, i64::MIN, i64::MAX, i64::MAX), Ok(0));
    assert_eq!(calculate_current_ve_balance(1000, i64::MIN, i64::MAX, i64::MIN), Ok(1000));
}

#[test]
fn credit_is_amount_times_multiplier_over_denominator() {
    assert_eq!(calculate_ve_amount(1000, 4, 1), Ok(4000));
    assert_eq!(calculate_ve_amount(1000, 1, 1), Ok(1000));
    assert_eq!(calculate_ve_amount(1000, 104, 100), Ok(1040));
    assert_eq!(calculate_ve_amount(1000, 250, 100), Ok(2500));
    // 7 * 3 / 2 = 10.5
    assert_eq!(calculate_ve_amount(7, 3, 2), Ok(10));
    assert_eq!(calculate_ve_amount(0, 4, 1), Ok(0));
    assert_eq!(calculate_ve_amount(5, 0, 1), Ok(0));
}

#[test]
fn credit_product_is_taken_wide() {
    // the product leaves 64 bits, the credit does not
    assert_eq!(calculate_ve_amount(1u64 << 63, 4, 4), Ok(1u64 << 63));
    assert_eq!(calculate_ve_amount(u64::MAX, u64::MAX, u64::MAX), Ok(u64::MAX));
    assert_eq!(calculate_ve_amount(u64::MAX, 400, 400), Ok(u64::MAX));
}

#[test]
fn credit_too_large_is_overflow() {
    assert_eq!(calculate_ve_amount(u64::MAX, 4, 1), Err(ErrorCode::MathOverflow));
    assert_eq!(calculate_ve_amount(1u64 << 63, 2, 1), Err(ErrorCode::MathOverflow));
    assert_eq!(calculate_ve_amount((1u64 << 63) - 1, 2, 1), Ok(u64::MAX - 1));
}

#[test]
fn credit_without_divisor_is_overflow() {
    assert_eq!(calculate_ve_amount(1000, 4, 0), Err(ErrorCode::MathOverflow));
    assert_eq!(calculate_ve_amount(0, 0, 0), Err(ErrorCode::MathOverflow));
}

#[test]
fn merged_unlock_time_is_weighted_average() {
    assert_eq!(calculate_merged_unlock_time(1000, 100, 1000, 200), Ok(150));
    assert_eq!(calculate_merged_unlock_time(1000, 100, 3000, 200), Ok(175));
    assert_eq!(calculate_merged_unlock_time(3000, 100, 1000, 200), Ok(125));
    // (2 * 10 + 1 * 11) / 3 = 10.3..
    assert_eq!(calculate_merged_unlock_time(2, 10, 1, 11), Ok(10));
    assert_eq!(calculate_merged_unlock_time(0, 10, 5, 20), Ok(20));
    assert_eq!(calculate_merged_unlock_time(5, 10, 0, 20), Ok(10));
}

#[test]
fn merged_unlock_time_fits_at_the_extremes() {
    assert_eq!(
        calculate_merged_unlock_time(u64::MAX, i64::MAX, u64::MAX, i64::MAX),
        Ok(i64::MAX)
    );
    assert_eq!(calculate_merged_unlock_time(u64::MAX, 0, u64::MAX, i64::MAX), Ok(i64::MAX / 2));
}

#[test]
fn merged_unlock_time_refuses_negative_times_and_no_weight() {
    assert_eq!(calculate_merged_unlock_time(1000, -1, 1000, 200), Err(ErrorCode::MathOverflow));
    assert_eq!(calculate_merged_unlock_time(1000, 100, 1000, -200), Err(ErrorCode::MathOverflow));
    assert_eq!(calculate_merged_unlock_time(0, 100, 0, 200), Err(ErrorCode::MathOverflow));
}
