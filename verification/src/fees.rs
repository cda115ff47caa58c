use vstd::prelude::*;
use crate::constants::{BPS_DENOMINATOR, STAKE_FEE_BPS, UNSTAKE_FEE_BPS};

verus! {

/// The part of `amount` that `bps` basis points make up, rounded down.
pub open spec fn bps_part(amount: int, bps: int) -> int {
    amount * bps / (BPS_DENOMINATOR as int)
}

/// The entry fee on a gross deposit.
pub open spec fn stake_fee(amount: int) -> int {
    bps_part(amount, STAKE_FEE_BPS as int)
}

/// What is left of a gross deposit once the entry fee is taken.
pub open spec fn net_stake(amount: int) -> int {
    amount - stake_fee(amount)
}

/// By how much a redemption exceeds the principal it came from; zero where
/// it does not.
pub open spec fn profit(share_amount: int, initial_stake: int) -> int {
    if share_amount > initial_stake {
        share_amount - initial_stake
    } else {
        0
    }
}

/// The exit fee on a redemption: a part of its profit, nothing of the
/// principal.
pub open spec fn unstake_fee(share_amount: int, initial_stake: int) -> int {
    bps_part(profit(share_amount, initial_stake), UNSTAKE_FEE_BPS as int)
}

/// A part of at most the whole is at most the amount, and never negative.
pub proof fn lemma_bps_part_bounds(amount: int, bps: int)
    requires
        0 <= amount,
        0 <= bps,
    ensures
        0 <= bps_part(amount, bps),
        0 <= amount * bps,
        bps <= BPS_DENOMINATOR ==> bps_part(amount, bps) <= amount,
{
    assert(0 <= amount * bps && 0 <= amount * bps / 10000) by (nonlinear_arith)
        requires
            0 <= amount,
            0 <= bps,
    ;
    if bps <= 10000 {
        assert(amount * bps / 10000 <= amount) by (nonlinear_arith)
            requires
                0 <= amount,
                0 <= bps <= 10000,
        ;
    }
}

/// The product of a 64-bit amount and a 64-bit rate fits in 128 bits.
pub proof fn lemma_product_fits(amount: int, rate: int)
    requires
        0 <= amount <= u64::MAX,
        0 <= rate <= u64::MAX,
    ensures
        0 <= amount * rate <= u128::MAX,
{
    assert(0 <= amount * rate <= 0xffff_ffff_ffff_ffff * 0xffff_ffff_ffff_ffff) by (nonlinear_arith)
        requires
            0 <= amount <= 0xffff_ffff_ffff_ffff,
            0 <= rate <= 0xffff_ffff_ffff_ffff,
    ;
}

/// Computes the entry fee on `amount`. The product is formed in 128 bits, so
/// every deposit has a fee.
pub fn calculate_stake_fee(amount: u64) -> (fee: u64)
    ensures
        fee == stake_fee(amount as int),
        fee <= amount,
{
    proof {
        lemma_product_fits(amount as int, STAKE_FEE_BPS as int);
        lemma_bps_part_bounds(amount as int, STAKE_FEE_BPS as int);
    }
    let wide: u128 = (amount as u128) * (STAKE_FEE_BPS as u128) / (BPS_DENOMINATOR as u128);
    wide as u64
}

/// Computes the exit fee on a redemption of `share_amount` against a
/// principal of `initial_stake`.
pub fn calculate_unstake_fee(share_amount: u64, initial_stake: u64) -> (fee: u64)
    ensures
        fee == unstake_fee(share_amount as int, initial_stake as int),
        fee <= share_amount,
        share_amount <= initial_stake ==> fee == 0,
{
    let gain: u64 = if share_amount > initial_stake {
        share_amount - initial_stake
    } else {
        0
    };
    proof {
        lemma_product_fits(gain as int, UNSTAKE_FEE_BPS as int);
        lemma_bps_part_bounds(gain as int, UNSTAKE_FEE_BPS as int);
    }
    let wide: u128 = (gain as u128) * (UNSTAKE_FEE_BPS as u128) / (BPS_DENOMINATOR as u128);
    wide as u64
}

} // verus!
