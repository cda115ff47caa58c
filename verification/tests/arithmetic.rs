use pooled_staking::constants::{
    BPS_DENOMINATOR, DUST_THRESHOLD, MAX_TRADE_SIZE_BPS, MIN_SHARE_BPS, MIN_STAKE_DURATION,
    MIN_STAKE_SOL, RAYDIUM_PROGRAM_ID, STAKE_FEE_BPS, UNSTAKE_FEE_BPS,
};
use pooled_staking::fees::{calculate_stake_fee, calculate_unstake_fee};
use pooled_staking::shares::{
    calculate_share_bps, calculate_share_value, lock_elapsed, trade_within_limit,
};

#[test]
fn constants_have_their_values() {
    assert_eq!(MIN_STAKE_SOL, 1_000_000_000);
    assert_eq!(UNSTAKE_FEE_BPS, 1000);
    assert_eq!(STAKE_FEE_BPS, 300);
    assert_eq!(MIN_STAKE_DURATION, 3600);
    assert_eq!(MIN_SHARE_BPS, 10);
    assert_eq!(MAX_TRADE_SIZE_BPS, 2000);
    assert_eq!(DUST_THRESHOLD, 1_000);
    assert_eq!(BPS_DENOMINATOR, 10_000);
    assert_eq!(RAYDIUM_PROGRAM_ID, "675kPX9MHTjS2zt1qfr1NYHuzeLXfQM9H24wFSUt1Mp8");
}

#[test]
fn stake_fee_is_three_percent_rounded_down() {
    assert_eq!(calculate_stake_fee(2_000_000_000), 60_000_000);
    assert_eq!(calculate_stake_fee(1_000_000_000), 30_000_000);
    assert_eq!(calculate_stake_fee(0), 0);
    assert_eq!(calculate_stake_fee(33), 0);
    assert_eq!(calculate_stake_fee(34), 1);
    assert_eq!(calculate_stake_fee(1_000_000_033), 30_000_000);
    assert_eq!(calculate_stake_fee(u64::MAX), 553_402_322_211_286_548);
}

#[test]
fn unstake_fee_is_a_tenth_of_the_profit_rounded_down() {
    assert_eq!(calculate_unstake_fee(1_000_000, 900_000), 10_000);
    assert_eq!(calculate_unstake_fee(900_000, 900_000), 0);
    assert_eq!(calculate_unstake_fee(800_000, 900_000), 0);
    assert_eq!(calculate_unstake_fee(900_009, 900_000), 0);
    assert_eq!(calculate_unstake_fee(900_010, 900_000), 1);
    assert_eq!(calculate_unstake_fee(u64::MAX, 0), 1_844_674_407_370_955_161);
}

#[test]
fn first_deposit_earns_the_whole() {
    assert_eq!(calculate_share_bps(0, 1_940_000_000), 10_000);
    assert_eq!(calculate_share_bps(0, 0), 10_000);
    assert_eq!(calculate_share_bps(0, u64::MAX), 10_000);
}

#[test]
fn later_deposit_earns_its_part_of_the_principal_after_it() {
    assert_eq!(calculate_share_bps(1_940_000_000, 970_000_000), 3_333);
    assert_eq!(calculate_share_bps(1_000, 1_000), 5_000);
    assert_eq!(calculate_share_bps(1, u64::MAX), 9_999);
    assert_eq!(calculate_share_bps(u64::MAX, u64::MAX), 5_000);
    assert_eq!(calculate_share_bps(u64::MAX, 1), 0);
    assert_eq!(calculate_share_bps(5, 0), 0);
}

#[test]
fn share_value_is_the_share_of_the_balance_rounded_down() {
    assert_eq!(calculate_share_value(2_000_000, 5_000), 1_000_000);
    assert_eq!(calculate_share_value(1_999_999, 5), 999);
    assert_eq!(calculate_share_value(0, 10_000), 0);
    assert_eq!(calculate_share_value(u64::MAX, 10_000), u64::MAX as u128);
    assert_eq!(
        calculate_share_value(u64::MAX, u64::MAX),
        (u64::MAX as u128) * (u64::MAX as u128) / 10_000
    );
}

#[test]
fn trade_limit_is_a_fifth_in_whole_basis_points() {
    assert!(trade_within_limit(200, 1_000));
    assert!(!trade_within_limit(201, 1_000));
    assert!(trade_within_limit(20_009, 100_000));
    assert!(!trade_within_limit(20_010, 100_000));
    assert!(trade_within_limit(0, 1));
    assert!(!trade_within_limit(1, 1));
    assert!(!trade_within_limit(u64::MAX, 1));
    assert!(trade_within_limit(u64::MAX / 5, u64::MAX));
    assert!(trade_within_limit(0, 0));
    assert!(!trade_within_limit(1, 0));
    assert!(!trade_within_limit(u64::MAX, 0));
}

#[test]
fn lock_lasts_an_hour() {
    assert!(!lock_elapsed(1_000, 4_599));
    assert!(lock_elapsed(1_000, 4_600));
    assert!(lock_elapsed(-3_600, 0));
    assert!(!lock_elapsed(i64::MAX, i64::MAX));
    assert!(lock_elapsed(i64::MIN, i64::MIN + 3_600));
    assert!(!lock_elapsed(i64::MIN, i64::MIN + 3_599));
}
