use vstd::prelude::*;
use crate::constants::{BPS_DENOMINATOR, MAX_TRADE_SIZE_BPS, MIN_STAKE_DURATION};
use crate::fees::{bps_part, lemma_product_fits};

verus! {

/// The share a deposit of `stake_amount` earns in a pool whose recorded
/// principal is `total_staked`: the whole pool for the first deposit, else
/// the deposit's part of the principal after it, rounded down.
pub open spec fn issued_share_bps(total_staked: int, stake_amount: int) -> int {
    if total_staked == 0 {
        BPS_DENOMINATOR as int
    } else {
        stake_amount * BPS_DENOMINATOR / (total_staked + stake_amount)
    }
}

/// What a share of `share_bps` is worth of a vault that holds `balance`.
pub open spec fn share_value(balance: int, share_bps: int) -> int {
    bps_part(balance, share_bps)
}

/// The size of a trade of `amount_in` in basis points of the recorded
/// principal, rounded down. A pool without principal has no such measure:
/// no amount is a part of nothing.
pub open spec fn trade_size_bps(amount_in: int, total_staked: int) -> Option<int> {
    if total_staked == 0 {
        None
    } else {
        Some(amount_in * BPS_DENOMINATOR / total_staked)
    }
}

/// Whether a trade of `amount_in` moves more of the recorded principal than
/// one trade may. Against a pool with principal that is a size above the
/// limit. Against a pool without principal every trade that moves anything
/// is too large, and a trade of nothing is not.
pub open spec fn trade_exceeds_limit(amount_in: int, total_staked: int) -> bool {
    match trade_size_bps(amount_in, total_staked) {
        Some(size) => size > MAX_TRADE_SIZE_BPS,
        None => amount_in > 0,
    }
}

/// Whether a position opened at `stake_timestamp` has served its lock.
pub open spec fn lock_served(stake_timestamp: int, now: int) -> bool {
    now >= stake_timestamp + MIN_STAKE_DURATION
}

/// An issued share never exceeds the whole.
pub proof fn lemma_issued_share_bounds(total_staked: int, stake_amount: int)
    requires
        0 <= total_staked,
        0 <= stake_amount,
    ensures
        0 <= issued_share_bps(total_staked, stake_amount) <= BPS_DENOMINATOR,
{
    if total_staked != 0 {
        let d = total_staked + stake_amount;
        assert(0 <= stake_amount * 10000 / d <= 10000) by (nonlinear_arith)
            requires
                0 <= stake_amount <= d,
                d > 0,
        ;
    }
}

/// A share of at most the whole is worth at most the balance.
pub proof fn lemma_share_value_bounds(balance: int, share_bps: int)
    requires
        0 <= balance,
        0 <= share_bps,
    ensures
        0 <= share_value(balance, share_bps),
        share_bps <= BPS_DENOMINATOR ==> share_value(balance, share_bps) <= balance,
{
    assert(0 <= balance * share_bps / 10000) by (nonlinear_arith)
        requires
            0 <= balance,
            0 <= share_bps,
    ;
    if share_bps <= 10000 {
        assert(balance * share_bps / 10000 <= balance) by (nonlinear_arith)
            requires
                0 <= balance,
                0 <= share_bps <= 10000,
        ;
    }
}

/// A trade is too large exactly when it moves something and ten thousand
/// times its amount reaches 2001 times the recorded principal. This states
/// the limit without a quotient, for pools with and without principal alike.
pub proof fn lemma_trade_limit_by_products(amount_in: int, total_staked: int)
    requires
        0 <= amount_in,
        0 <= total_staked,
    ensures
        trade_exceeds_limit(amount_in, total_staked) <==> amount_in > 0 && amount_in
            * BPS_DENOMINATOR >= (MAX_TRADE_SIZE_BPS + 1) * total_staked,
{
    if total_staked > 0 {
        assert((amount_in * 10000 / total_staked > 2000) <==> (amount_in * 10000 >= 2001
            * total_staked)) by (nonlinear_arith)
            requires
                0 <= amount_in,
                0 < total_staked,
        ;
    }
}

/// Computes the share a deposit earns, with the product formed in 128 bits.
pub fn calculate_share_bps(total_staked: u64, stake_amount: u64) -> (share: u64)
    ensures
        share == issued_share_bps(total_staked as int, stake_amount as int),
        share <= BPS_DENOMINATOR,
{
    proof {
        lemma_issued_share_bounds(total_staked as int, stake_amount as int);
    }
    if total_staked == 0 {
        BPS_DENOMINATOR
    } else {
        proof {
            lemma_product_fits(stake_amount as int, BPS_DENOMINATOR as int);
        }
        let after: u128 = (total_staked as u128) + (stake_amount as u128);
        let wide: u128 = (stake_amount as u128) * (BPS_DENOMINATOR as u128) / after;
        wide as u64
    }
}

/// Computes what a share is worth of a vault's balance. The result is wide:
/// a share above the whole can be worth more than 64 bits hold.
pub fn calculate_share_value(balance: u64, share_bps: u64) -> (value: u128)
    ensures
        value == share_value(balance as int, share_bps as int),
{
    proof {
        lemma_product_fits(balance as int, share_bps as int);
    }
    (balance as u128) * (share_bps as u128) / (BPS_DENOMINATOR as u128)
}

/// Tells whether a trade of `amount_in` stays within the part of the
/// recorded principal that one trade may move. Of a pool without principal
/// only a trade of nothing does.
pub fn trade_within_limit(amount_in: u64, total_staked: u64) -> (ok: bool)
    ensures
        ok == !trade_exceeds_limit(amount_in as int, total_staked as int),
{
    if total_staked == 0 {
        return amount_in == 0;
    }
    proof {
        lemma_product_fits(amount_in as int, BPS_DENOMINATOR as int);
    }
    let size: u128 = (amount_in as u128) * (BPS_DENOMINATOR as u128) / (total_staked as u128);
    size <= MAX_TRADE_SIZE_BPS as u128
}

/// Tells whether a position opened at `stake_timestamp` has served its lock
/// at `now`. The sum is formed in 128 bits, so no timestamp overflows it.
pub fn lock_elapsed(stake_timestamp: i64, now: i64) -> (served: bool)
    ensures
        served == lock_served(stake_timestamp as int, now as int),
{
    (now as i128) >= (stake_timestamp as i128) + (MIN_STAKE_DURATION as i128)
}

} // verus!
