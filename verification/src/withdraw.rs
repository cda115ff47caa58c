use vstd::prelude::*;
use crate::constants::DUST_THRESHOLD;
use crate::error::ErrorCode;
use crate::fees::{calculate_unstake_fee, unstake_fee};
use crate::pubkey::Pubkey;
use crate::shares::{calculate_share_value, lock_elapsed, lock_served, share_value};
use crate::state::{AgentPool, StakePosition, TokenAccount, TransferOrder};

verus! {

/// What a withdrawal works on: the pool, the caller's position in it, and the
/// custody accounts involved.
#[derive(Clone, Copy, Debug, PartialEq, Eq)]
pub struct Withdraw {
    pub agent_pool: AgentPool,
    /// Address of the pool record; it authorises debits of the vault.
    pub agent_pool_key: Pubkey,
    /// The position to redeem. A withdrawal always closes it.
    pub stake_position: StakePosition,
    pub owner: Pubkey,
    /// The pool's vault, with the balance it holds now.
    pub pool_vault: TokenAccount,
    /// The owner's custody account, which receives the redemption.
    pub user_token_account: TokenAccount,
    pub fee_account: TokenAccount,
}

/// The transfers a successful withdrawal asks for.
#[derive(Clone, Copy, Debug, PartialEq, Eq)]
pub struct WithdrawTransfers {
    /// The redemption net of the exit fee, from the vault to the owner.
    pub payout: TransferOrder,
    /// The exit fee, from the vault to the fee account; absent when zero.
    pub fee: Option<TransferOrder>,
}

/// What the position is worth of the vault's present balance.
pub open spec fn withdraw_share_amount(ctx: Withdraw) -> int {
    share_value(ctx.pool_vault.amount as int, ctx.stake_position.share_bps as int)
}

/// The exit fee the withdrawal owes.
pub open spec fn withdraw_fee(ctx: Withdraw) -> int {
    unstake_fee(withdraw_share_amount(ctx), ctx.stake_position.initial_stake as int)
}

/// Why a withdrawal at `now` is rejected, if it is. The conditions are tried
/// in this order: the lock, unless the pool is in emergency mode; the dust
/// threshold; then the two pool counters, neither of which may drop below
/// zero.
pub open spec fn withdraw_rejection(ctx: Withdraw, now: i64) -> Option<ErrorCode> {
    if !ctx.agent_pool.emergency_mode && !lock_served(
        ctx.stake_position.stake_timestamp as int,
        now as int,
    ) {
        Some(ErrorCode::StakeDurationNotMet)
    } else if withdraw_share_amount(ctx) < DUST_THRESHOLD {
        Some(ErrorCode::DustAmount)
    } else if ctx.agent_pool.total_shares_bps < ctx.stake_position.share_bps {
        Some(ErrorCode::MathOverflow)
    } else if ctx.agent_pool.total_staked < withdraw_share_amount(ctx) {
        Some(ErrorCode::MathOverflow)
    } else {
        None
    }
}

/// The pool after a successful withdrawal: the position's share and the
/// redeemed amount leave the two counters.
pub open spec fn pool_after_withdraw(ctx: Withdraw) -> AgentPool {
    AgentPool {
        total_shares_bps: (ctx.agent_pool.total_shares_bps - ctx.stake_position.share_bps) as u64,
        total_staked: (ctx.agent_pool.total_staked - withdraw_share_amount(ctx)) as u64,
        ..ctx.agent_pool
    }
}

/// The records after a successful withdrawal: the pool is updated and the
/// position cleared. The custody accounts are as they were; their balances
/// move when the caller carries out the transfers.
pub open spec fn withdraw_applied(ctx: Withdraw) -> Withdraw {
    Withdraw {
        agent_pool: pool_after_withdraw(ctx),
        stake_position: StakePosition::cleared(),
        ..ctx
    }
}

/// The transfers a successful withdrawal asks for.
pub open spec fn withdraw_transfers(ctx: Withdraw) -> WithdrawTransfers {
    WithdrawTransfers {
        payout: TransferOrder {
            from: ctx.pool_vault.key,
            to: ctx.user_token_account.key,
            authority: ctx.agent_pool_key,
            amount: (withdraw_share_amount(ctx) - withdraw_fee(ctx)) as u64,
        },
        fee: if withdraw_fee(ctx) > 0 {
            Some(
                TransferOrder {
                    from: ctx.pool_vault.key,
                    to: ctx.fee_account.key,
                    authority: ctx.agent_pool_key,
                    amount: withdraw_fee(ctx) as u64,
                },
            )
        } else {
            None
        },
    }
}

/// Redeems the caller's position at `now` against the vault's present
/// balance.
///
/// On success the position's share and the redeemed amount leave the pool's
/// counters, the position is cleared, and the transfers to carry out are
/// returned. On rejection nothing changes.
pub fn withdraw(ctx: &mut Withdraw, now: i64) -> (result: Result<WithdrawTransfers, ErrorCode>)
    ensures
        match result {
            Ok(transfers) => {
                &&& withdraw_rejection(*old(ctx), now) is None
                &&& *final(ctx) == withdraw_applied(*old(ctx))
                &&& transfers == withdraw_transfers(*old(ctx))
                &&& transfers.payout.amount + withdraw_fee(*old(ctx)) == withdraw_share_amount(
                    *old(ctx),
                )
            },
            Err(code) => {
                &&& withdraw_rejection(*old(ctx), now) == Some(code)
                &&& *final(ctx) == *old(ctx)
            },
        },
        old(ctx).agent_pool.wf() ==> final(ctx).agent_pool.wf(),
{
    if !ctx.agent_pool.emergency_mode && !lock_elapsed(ctx.stake_position.stake_timestamp, now) {
        return Err(ErrorCode::StakeDurationNotMet);
    }
    let value: u128 = calculate_share_value(ctx.pool_vault.amount, ctx.stake_position.share_bps);
    if value < DUST_THRESHOLD as u128 {
        return Err(ErrorCode::DustAmount);
    }
    let remaining_shares: u64 = match ctx.agent_pool.total_shares_bps.checked_sub(
        ctx.stake_position.share_bps,
    ) {
        Some(left) => left,
        None => {
            return Err(ErrorCode::MathOverflow);
        },
    };
    if value > u64::MAX as u128 {
        // More than any recorded principal can cover.
        return Err(ErrorCode::MathOverflow);
    }
    let share_amount: u64 = value as u64;
    let fee: u64 = calculate_unstake_fee(share_amount, ctx.stake_position.initial_stake);
    let withdrawal_amount: u64 = share_amount - fee;
    let remaining_staked: u64 = match ctx.agent_pool.total_staked.checked_sub(
        withdrawal_amount + fee,
    ) {
        Some(left) => left,
        None => {
            return Err(ErrorCode::MathOverflow);
        },
    };
    let payout = TransferOrder {
        from: ctx.pool_vault.key,
        to: ctx.user_token_account.key,
        authority: ctx.agent_pool_key,
        amount: withdrawal_amount,
    };
    let fee_order: Option<TransferOrder> = if fee > 0 {
        Some(
            TransferOrder {
                from: ctx.pool_vault.key,
                to: ctx.fee_account.key,
                authority: ctx.agent_pool_key,
                amount: fee,
            },
        )
    } else {
        None
    };
    ctx.agent_pool.total_shares_bps = remaining_shares;
    ctx.agent_pool.total_staked = remaining_staked;
    ctx.stake_position = StakePosition {
        owner: Pubkey::default(),
        agent_pool: Pubkey::default(),
        initial_stake: 0,
        share_bps: 0,
        stake_timestamp: 0,
        bump: 0,
    };
    Ok(WithdrawTransfers { payout, fee: fee_order })
}

} // verus!
