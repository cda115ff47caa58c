use vstd::prelude::*;
use crate::constants::{BPS_DENOMINATOR, MIN_SHARE_BPS, MIN_STAKE_SOL};
use crate::error::ErrorCode;
use crate::fees::{calculate_stake_fee, net_stake, stake_fee};
use crate::pubkey::Pubkey;
use crate::shares::{calculate_share_bps, issued_share_bps};
use crate::state::{AgentPool, StakePosition, TokenAccount, TransferOrder};

verus! {

/// What a stake works on: the pool, the record that will hold the new
/// position, and the custody accounts involved.
#[derive(Clone, Copy, Debug, PartialEq, Eq)]
pub struct Stake {
    pub agent_pool: AgentPool,
    /// Address of the pool record.
    pub agent_pool_key: Pubkey,
    /// The record a successful stake fills; what it held before is ignored.
    pub stake_position: StakePosition,
    /// Bump seed of the position record's address.
    pub stake_position_bump: u8,
    /// The staker, who authorises the debits of their custody account.
    pub user: Pubkey,
    pub pool_vault: TokenAccount,
    pub user_token_account: TokenAccount,
    pub fee_account: TokenAccount,
}

/// The transfers a successful stake asks for.
#[derive(Clone, Copy, Debug, PartialEq, Eq)]
pub struct StakeTransfers {
    /// The deposit net of the entry fee, from the staker to the vault.
    pub deposit: TransferOrder,
    /// The entry fee, from the staker to the fee account.
    pub fee: TransferOrder,
}

/// The share a gross deposit of `amount` earns in `pool`.
pub open spec fn stake_share_bps(pool: AgentPool, amount: u64) -> int {
    issued_share_bps(pool.total_staked as int, net_stake(amount as int))
}

/// Why a stake of `amount` into `pool` is rejected, if it is. The conditions
/// are tried in this order: the minimum deposit; the pause flag; the minimum
/// share; the cap on the pool's outstanding shares; the range of the
/// principal counter.
pub open spec fn stake_rejection(pool: AgentPool, amount: u64) -> Option<ErrorCode> {
    if amount < MIN_STAKE_SOL {
        Some(ErrorCode::StakeTooSmall)
    } else if pool.paused {
        Some(ErrorCode::PoolPaused)
    } else if stake_share_bps(pool, amount) < MIN_SHARE_BPS {
        Some(ErrorCode::ShareTooSmall)
    } else if pool.total_shares_bps + stake_share_bps(pool, amount) > BPS_DENOMINATOR {
        Some(ErrorCode::InvalidShare)
    } else if pool.total_staked + net_stake(amount as int) > u64::MAX {
        Some(ErrorCode::MathOverflow)
    } else {
        None
    }
}

/// The pool after a successful stake: the net deposit and the issued share
/// join the two counters. No other position's share changes.
pub open spec fn pool_after_stake(pool: AgentPool, amount: u64) -> AgentPool {
    AgentPool {
        total_staked: (pool.total_staked + net_stake(amount as int)) as u64,
        total_shares_bps: (pool.total_shares_bps + stake_share_bps(pool, amount)) as u64,
        ..pool
    }
}

/// The position a successful stake at `now` opens.
pub open spec fn position_after_stake(ctx: Stake, amount: u64, now: i64) -> StakePosition {
    StakePosition {
        owner: ctx.user,
        agent_pool: ctx.agent_pool_key,
        initial_stake: net_stake(amount as int) as u64,
        share_bps: stake_share_bps(ctx.agent_pool, amount) as u64,
        stake_timestamp: now,
        bump: ctx.stake_position_bump,
    }
}

/// The records after a successful stake. The custody accounts are as they
/// were; their balances move when the caller carries out the transfers.
pub open spec fn stake_applied(ctx: Stake, amount: u64, now: i64) -> Stake {
    Stake {
        agent_pool: pool_after_stake(ctx.agent_pool, amount),
        stake_position: position_after_stake(ctx, amount, now),
        ..ctx
    }
}

/// The transfers a successful stake asks for.
pub open spec fn stake_transfers(ctx: Stake, amount: u64) -> StakeTransfers {
    StakeTransfers {
        deposit: TransferOrder {
            from: ctx.user_token_account.key,
            to: ctx.pool_vault.key,
            authority: ctx.user,
            amount: net_stake(amount as int) as u64,
        },
        fee: TransferOrder {
            from: ctx.user_token_account.key,
            to: ctx.fee_account.key,
            authority: ctx.user,
            amount: stake_fee(amount as int) as u64,
        },
    }
}

/// Deposits `amount` into the pool at `now` and opens the staker's position.
///
/// On success the net deposit and the issued share join the pool's counters,
/// the position record is filled, and the transfers to carry out are
/// returned. On rejection nothing changes.
pub fn stake(ctx: &mut Stake, amount: u64, now: i64) -> (result: Result<StakeTransfers, ErrorCode>)
    ensures
        match result {
            Ok(transfers) => {
                &&& stake_rejection(old(ctx).agent_pool, amount) is None
                &&& *final(ctx) == stake_applied(*old(ctx), amount, now)
                &&& transfers == stake_transfers(*old(ctx), amount)
                &&& transfers.deposit.amount + transfers.fee.amount == amount
                &&& final(ctx).stake_position.wf()
                &&& final(ctx).agent_pool.wf()
            },
            Err(code) => {
                &&& stake_rejection(old(ctx).agent_pool, amount) == Some(code)
                &&& *final(ctx) == *old(ctx)
            },
        },
{
    if amount < MIN_STAKE_SOL {
        return Err(ErrorCode::StakeTooSmall);
    }
    if ctx.agent_pool.paused {
        return Err(ErrorCode::PoolPaused);
    }
    let stake_fee: u64 = calculate_stake_fee(amount);
    let stake_amount: u64 = amount - stake_fee;
    let share_bps: u64 = calculate_share_bps(ctx.agent_pool.total_staked, stake_amount);
    if share_bps < MIN_SHARE_BPS {
        return Err(ErrorCode::ShareTooSmall);
    }
    if ctx.agent_pool.total_shares_bps > BPS_DENOMINATOR - share_bps {
        return Err(ErrorCode::InvalidShare);
    }
    let total_staked: u64 = match ctx.agent_pool.total_staked.checked_add(stake_amount) {
        Some(sum) => sum,
        None => {
            return Err(ErrorCode::MathOverflow);
        },
    };
    let total_shares_bps: u64 = match ctx.agent_pool.total_shares_bps.checked_add(share_bps) {
        Some(sum) => sum,
        None => {
            return Err(ErrorCode::MathOverflow);
        },
    };
    let deposit = TransferOrder {
        from: ctx.user_token_account.key,
        to: ctx.pool_vault.key,
        authority: ctx.user,
        amount: stake_amount,
    };
    let fee = TransferOrder {
        from: ctx.user_token_account.key,
        to: ctx.fee_account.key,
        authority: ctx.user,
        amount: stake_fee,
    };
    ctx.agent_pool.total_staked = total_staked;
    ctx.agent_pool.total_shares_bps = total_shares_bps;
    ctx.stake_position = StakePosition {
        owner: ctx.user,
        agent_pool: ctx.agent_pool_key,
        initial_stake: stake_amount,
        share_bps,
        stake_timestamp: now,
        bump: ctx.stake_position_bump,
    };
    Ok(StakeTransfers { deposit, fee })
}

} // verus!
