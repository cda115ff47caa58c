use vstd::prelude::*;
use crate::constants::{
    BPS_DENOMINATOR,
    DUST_THRESHOLD,
    MAX_TRADE_SIZE_BPS,
    MIN_SHARE_BPS,
    STAKE_FEE_BPS,
};
use crate::error::ErrorCode;
use crate::fees::{lemma_bps_part_bounds, net_stake, profit};
use crate::initialize::{created_pool, InitializeAgentPool};
use crate::shares::{
    lemma_share_value_bounds,
    lemma_trade_limit_by_products,
    lock_served,
    share_value,
};
use crate::stake::{
    pool_after_stake,
    position_after_stake,
    stake_rejection,
    stake_share_bps,
    Stake,
};
use crate::state::{AgentPool, StakePosition};
use crate::trade::{trade_admitted, trade_rejection, ExecuteTrade, RaydiumSwap};
use crate::withdraw::{
    pool_after_withdraw,
    withdraw_fee,
    withdraw_rejection,
    withdraw_share_amount,
    withdraw_transfers,
    Withdraw,
};

verus! {

/// The sum of the shares of a pool's open positions.
pub open spec fn share_sum(positions: Seq<StakePosition>) -> int
    decreases positions.len(),
{
    if positions.len() == 0 {
        0
    } else {
        share_sum(positions.drop_last()) + positions.last().share_bps
    }
}

/// A pool is consistent with its open positions when its outstanding shares
/// are within the whole and equal the sum of the positions' shares, and each
/// position's share is within its bounds.
pub open spec fn consistent(pool: AgentPool, positions: Seq<StakePosition>) -> bool {
    &&& pool.wf()
    &&& share_sum(positions) == pool.total_shares_bps
    &&& forall|i: int| 0 <= i < positions.len() ==> (#[trigger] positions[i]).wf()
}

/// Opening a position adds its share to the sum.
pub proof fn lemma_share_sum_push(positions: Seq<StakePosition>, opened: StakePosition)
    ensures
        share_sum(positions.push(opened)) == share_sum(positions) + opened.share_bps,
{
    assert(positions.push(opened).drop_last() =~= positions);
}

/// Closing a position takes its share out of the sum.
pub proof fn lemma_share_sum_remove(positions: Seq<StakePosition>, i: int)
    requires
        0 <= i < positions.len(),
    ensures
        share_sum(positions.remove(i)) == share_sum(positions) - positions[i].share_bps,
        share_sum(positions.remove(i)) >= 0,
    decreases positions.len(),
{
    let rest = positions.remove(i);
    if i == positions.len() - 1 {
        assert(rest =~= positions.drop_last());
    } else {
        lemma_share_sum_remove(positions.drop_last(), i);
        assert(rest.drop_last() =~= positions.drop_last().remove(i));
        assert(rest.last() == positions.last());
    }
    lemma_share_sum_nonnegative(rest);
}

/// A sum of shares is never negative.
pub proof fn lemma_share_sum_nonnegative(positions: Seq<StakePosition>)
    ensures
        share_sum(positions) >= 0,
    decreases positions.len(),
{
    if positions.len() > 0 {
        lemma_share_sum_nonnegative(positions.drop_last());
    }
}

/// A newly created pool is consistent with having no position.
pub proof fn lemma_created_pool_consistent(ctx: InitializeAgentPool)
    ensures
        consistent(created_pool(ctx), Seq::<StakePosition>::empty()),
{
}

/// Every share a successful stake issues lies between the minimum share and
/// the whole.
pub proof fn lemma_issued_share_in_bounds(ctx: Stake, amount: u64, now: i64)
    requires
        stake_rejection(ctx.agent_pool, amount) is None,
    ensures
        position_after_stake(ctx, amount, now).wf(),
        position_after_stake(ctx, amount, now).share_bps == stake_share_bps(ctx.agent_pool, amount),
        MIN_SHARE_BPS <= stake_share_bps(ctx.agent_pool, amount) <= BPS_DENOMINATOR,
{
}

/// A successful stake keeps a pool consistent with its open positions, the
/// new one included: the outstanding shares stay within the whole and stay
/// equal to the sum of the positions' shares.
pub proof fn lemma_stake_keeps_consistency(
    ctx: Stake,
    amount: u64,
    now: i64,
    positions: Seq<StakePosition>,
)
    requires
        consistent(ctx.agent_pool, positions),
        stake_rejection(ctx.agent_pool, amount) is None,
    ensures
        consistent(
            pool_after_stake(ctx.agent_pool, amount),
            positions.push(position_after_stake(ctx, amount, now)),
        ),
{
    let opened = position_after_stake(ctx, amount, now);
    lemma_issued_share_in_bounds(ctx, amount, now);
    lemma_share_sum_push(positions, opened);
    let after = positions.push(opened);
    assert forall|i: int| 0 <= i < after.len() implies (#[trigger] after[i]).wf() by {
        if i < positions.len() {
            assert(after[i] == positions[i]);
        }
    }
}

/// A successful withdrawal keeps a pool consistent with its open positions,
/// the closed one removed.
pub proof fn lemma_withdraw_keeps_consistency(
    ctx: Withdraw,
    now: i64,
    positions: Seq<StakePosition>,
    i: int,
)
    requires
        consistent(ctx.agent_pool, positions),
        0 <= i < positions.len(),
        positions[i] == ctx.stake_position,
        withdraw_rejection(ctx, now) is None,
    ensures
        consistent(pool_after_withdraw(ctx), positions.remove(i)),
{
    lemma_share_sum_remove(positions, i);
    let after = positions.remove(i);
    assert forall|j: int| 0 <= j < after.len() implies (#[trigger] after[j]).wf() by {
        if j < i {
            assert(after[j] == positions[j]);
        } else {
            assert(after[j] == positions[j + 1]);
        }
    }
}

/// In a pool that is consistent with its open positions, closing one of
/// them never finds the share counter too small.
pub proof fn lemma_open_position_share_is_covered(
    pool: AgentPool,
    positions: Seq<StakePosition>,
    i: int,
)
    requires
        consistent(pool, positions),
        0 <= i < positions.len(),
    ensures
        positions[i].share_bps <= pool.total_shares_bps,
{
    lemma_share_sum_remove(positions, i);
}

/// What the open positions are worth together of a vault that holds
/// `balance`.
pub open spec fn claims(positions: Seq<StakePosition>, balance: int) -> int
    decreases positions.len(),
{
    if positions.len() == 0 {
        0
    } else {
        claims(positions.drop_last(), balance) + share_value(
            balance,
            positions.last().share_bps as int,
        )
    }
}

/// The open positions together are worth no more than their shares' part of
/// the balance.
pub proof fn lemma_claims_within_shares(positions: Seq<StakePosition>, balance: int)
    requires
        0 <= balance,
    ensures
        0 <= claims(positions, balance),
        claims(positions, balance) * BPS_DENOMINATOR <= balance * share_sum(positions),
    decreases positions.len(),
{
    if positions.len() > 0 {
        let rest = positions.drop_last();
        let share = positions.last().share_bps as int;
        lemma_claims_within_shares(rest, balance);
        lemma_share_value_bounds(balance, share);
        assert((balance * share / 10000) * 10000 <= balance * share) by (nonlinear_arith)
            requires
                0 <= balance,
                0 <= share,
        ;
        assert(balance * (share_sum(rest) + share) == balance * share_sum(rest) + balance * share)
            by (nonlinear_arith);
    }
}

/// The vault covers its positions: in a pool that is consistent with its
/// open positions, what they are worth together never exceeds the balance.
pub proof fn lemma_vault_covers_claims(
    pool: AgentPool,
    positions: Seq<StakePosition>,
    balance: u64,
)
    requires
        consistent(pool, positions),
    ensures
        claims(positions, balance as int) <= balance,
{
    let total = share_sum(positions);
    let worth = claims(positions, balance as int);
    lemma_claims_within_shares(positions, balance as int);
    assert(worth <= balance) by (nonlinear_arith)
        requires
            0 <= balance,
            0 <= total <= 10000,
            worth * 10000 <= balance * total,
    ;
}

/// A successful withdrawal of a position with a share within the whole asks
/// for no more than the vault holds.
pub proof fn lemma_withdraw_covered_by_vault(ctx: Withdraw, now: i64)
    requires
        withdraw_rejection(ctx, now) is None,
        ctx.stake_position.share_bps <= BPS_DENOMINATOR,
    ensures
        withdraw_transfers(ctx).payout.amount + withdraw_fee(ctx) <= ctx.pool_vault.amount,
{
    lemma_share_value_bounds(ctx.pool_vault.amount as int, ctx.stake_position.share_bps as int);
    lemma_withdraw_pays_share_amount(ctx, now);
}

/// While a position is locked and the pool is not in emergency mode, a
/// withdrawal is rejected for the lock, whatever the position is worth.
pub proof fn lemma_locked_withdraw_rejected(ctx: Withdraw, now: i64)
    requires
        !ctx.agent_pool.emergency_mode,
        !lock_served(ctx.stake_position.stake_timestamp as int, now as int),
    ensures
        withdraw_rejection(ctx, now) == Some(ErrorCode::StakeDurationNotMet),
{
}

/// Once the lock is out of the way, a position worth less than the dust
/// threshold cannot be withdrawn.
pub proof fn lemma_dust_withdraw_rejected(ctx: Withdraw, now: i64)
    requires
        ctx.agent_pool.emergency_mode || lock_served(
            ctx.stake_position.stake_timestamp as int,
            now as int,
        ),
        withdraw_share_amount(ctx) < DUST_THRESHOLD,
    ensures
        withdraw_rejection(ctx, now) == Some(ErrorCode::DustAmount),
{
}

/// A successful withdrawal pays out the whole worth of the position: the
/// payout and the fee add up to it, the fee is at most a tenth of the profit,
/// and a fee transfer is asked for exactly when the fee is not zero.
pub proof fn lemma_withdraw_pays_share_amount(ctx: Withdraw, now: i64)
    requires
        withdraw_rejection(ctx, now) is None,
    ensures
        withdraw_transfers(ctx).payout.amount + withdraw_fee(ctx) == withdraw_share_amount(ctx),
        0 <= withdraw_fee(ctx),
        withdraw_fee(ctx) * 10 <= profit(
            withdraw_share_amount(ctx),
            ctx.stake_position.initial_stake as int,
        ),
        withdraw_transfers(ctx).fee is Some <==> withdraw_fee(ctx) > 0,
        withdraw_transfers(ctx).fee matches Some(order) ==> order.amount == withdraw_fee(ctx),
{
    let gain = profit(withdraw_share_amount(ctx), ctx.stake_position.initial_stake as int);
    lemma_bps_part_bounds(gain, 1000);
    assert(gain * 1000 / 10000 * 10 <= gain) by (nonlinear_arith)
        requires
            0 <= gain,
    ;
}

/// A withdrawal without profit pays no fee: one transfer is asked for, of
/// the position's whole worth.
pub proof fn lemma_no_profit_no_fee(ctx: Withdraw, now: i64)
    requires
        withdraw_rejection(ctx, now) is None,
        withdraw_share_amount(ctx) <= ctx.stake_position.initial_stake,
    ensures
        withdraw_fee(ctx) == 0,
        withdraw_transfers(ctx).fee is None,
        withdraw_transfers(ctx).payout.amount == withdraw_share_amount(ctx),
{
}

/// A withdrawal from a pool that is consistent with its open positions can
/// fail on a counter only where the vault holds more than the recorded
/// principal: while the balance is within the principal, an unlocked
/// position above the dust threshold is always paid.
pub proof fn lemma_withdraw_within_principal_succeeds(
    ctx: Withdraw,
    now: i64,
    positions: Seq<StakePosition>,
    i: int,
)
    requires
        consistent(ctx.agent_pool, positions),
        0 <= i < positions.len(),
        positions[i] == ctx.stake_position,
        ctx.agent_pool.emergency_mode || lock_served(
            ctx.stake_position.stake_timestamp as int,
            now as int,
        ),
        withdraw_share_amount(ctx) >= DUST_THRESHOLD,
        ctx.pool_vault.amount <= ctx.agent_pool.total_staked,
    ensures
        withdraw_rejection(ctx, now) is None,
{
    lemma_open_position_share_is_covered(ctx.agent_pool, positions, i);
    lemma_share_value_bounds(ctx.pool_vault.amount as int, ctx.stake_position.share_bps as int);
}

/// The first staker of a pool who withdraws while the vault still holds
/// exactly the net deposit gets the net deposit back, pays no exit fee, and
/// leaves the pool as empty as it was.
pub proof fn lemma_first_stake_round_trip(
    staking: Stake,
    amount: u64,
    opened: i64,
    redeeming: Withdraw,
    now: i64,
)
    requires
        staking.agent_pool.total_staked == 0,
        staking.agent_pool.total_shares_bps == 0,
        stake_rejection(staking.agent_pool, amount) is None,
        redeeming.agent_pool == pool_after_stake(staking.agent_pool, amount),
        redeeming.stake_position == position_after_stake(staking, amount, opened),
        redeeming.pool_vault.amount == net_stake(amount as int),
        redeeming.agent_pool.emergency_mode || lock_served(opened as int, now as int),
    ensures
        withdraw_rejection(redeeming, now) is None,
        withdraw_transfers(redeeming).payout.amount == net_stake(amount as int),
        withdraw_transfers(redeeming).fee is None,
        pool_after_withdraw(redeeming) == staking.agent_pool,
{
    // The position holds the whole pool, so it is worth the whole balance.
    lemma_bps_part_bounds(amount as int, STAKE_FEE_BPS as int);
}

/// An admitted trade is rejected for its size exactly when it moves
/// something and ten thousand times its amount reaches 2001 times the
/// recorded principal, that is when the trade, rounded down to whole basis
/// points, exceeds a fifth of the principal. Otherwise it goes to the venue.
pub proof fn lemma_trade_size_limit(ctx: ExecuteTrade, swap: RaydiumSwap)
    requires
        trade_admitted(ctx),
    ensures
        trade_rejection(ctx, swap) == Some(ErrorCode::TradeSizeTooLarge) <==> swap.amount_in > 0
            && swap.amount_in * BPS_DENOMINATOR >= (MAX_TRADE_SIZE_BPS + 1)
            * ctx.agent_pool.total_staked,
        trade_rejection(ctx, swap) is None || trade_rejection(ctx, swap) == Some(
            ErrorCode::TradeSizeTooLarge,
        ),
{
    lemma_trade_limit_by_products(swap.amount_in as int, ctx.agent_pool.total_staked as int);
}

/// A pool without principal admits no trade that moves anything: whatever
/// the agent asks to trade of it is too large.
pub proof fn lemma_empty_pool_admits_no_trade(ctx: ExecuteTrade, swap: RaydiumSwap)
    requires
        trade_admitted(ctx),
        ctx.agent_pool.total_staked == 0,
        swap.amount_in > 0,
    ensures
        trade_rejection(ctx, swap) == Some(ErrorCode::TradeSizeTooLarge),
{
}

} // verus!
