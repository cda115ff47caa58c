use vstd::prelude::*;
use crate::error::ErrorCode;
use crate::pubkey::{lemma_same_bytes_same_key, Pubkey};
use crate::shares::{trade_exceeds_limit, trade_within_limit};
use crate::state::{AgentPool, TokenAccount};

verus! {

/// The terms of a trade: what goes in, and the least that must come out.
#[derive(Clone, Copy, Debug, PartialEq, Eq)]
pub struct RaydiumSwap {
    pub amount_in: u64,
    pub min_amount_out: u64,
}

/// What a trade works on: the pool, the caller, and the accounts of the swap
/// venue.
#[derive(Clone, Copy, Debug, PartialEq, Eq)]
pub struct ExecuteTrade {
    pub agent_pool: AgentPool,
    /// The caller's verified identity.
    pub agent: Pubkey,
    pub pool_vault: TokenAccount,
    pub token_a_vault: TokenAccount,
    pub token_b_vault: TokenAccount,
    pub amm_pool: TokenAccount,
    pub amm: Pubkey,
    pub raydium_program: Pubkey,
}

/// A swap the caller has to hand to the venue.
#[derive(Clone, Copy, Debug, PartialEq, Eq)]
pub struct SwapOrder {
    /// The agent, who signs for the swap.
    pub agent: Pubkey,
    pub raydium_program: Pubkey,
    pub pool_vault: Pubkey,
    pub token_a_vault: Pubkey,
    pub token_b_vault: Pubkey,
    pub amm_pool: Pubkey,
    pub amm: Pubkey,
    pub amount_in: u64,
    pub min_amount_out: u64,
}

/// Whether the trade gets as far as having its size measured: the pool is
/// not paused and the caller is its agent.
pub open spec fn trade_admitted(ctx: ExecuteTrade) -> bool {
    !ctx.agent_pool.paused && ctx.agent_pool.agent == ctx.agent
}

/// Why a trade is rejected before it reaches the venue, if it is. The
/// conditions are tried in this order: the pause flag; the caller's identity;
/// the size of the trade against the recorded principal.
pub open spec fn trade_rejection(ctx: ExecuteTrade, swap: RaydiumSwap) -> Option<ErrorCode> {
    if ctx.agent_pool.paused {
        Some(ErrorCode::PoolPaused)
    } else if ctx.agent_pool.agent != ctx.agent {
        Some(ErrorCode::Unauthorized)
    } else if trade_exceeds_limit(swap.amount_in as int, ctx.agent_pool.total_staked as int) {
        Some(ErrorCode::TradeSizeTooLarge)
    } else {
        None
    }
}

/// The swap an admitted trade hands to the venue.
pub open spec fn swap_order(ctx: ExecuteTrade, swap: RaydiumSwap) -> SwapOrder {
    SwapOrder {
        agent: ctx.agent,
        raydium_program: ctx.raydium_program,
        pool_vault: ctx.pool_vault.key,
        token_a_vault: ctx.token_a_vault.key,
        token_b_vault: ctx.token_b_vault.key,
        amm_pool: ctx.amm_pool.key,
        amm: ctx.amm,
        amount_in: swap.amount_in,
        min_amount_out: swap.min_amount_out,
    }
}

/// Decides on a trade the agent asks for and, where it is admitted and small
/// enough, returns the swap to hand to the venue. No record changes either
/// way: what the trade does to the pool's value happens inside the vault.
///
/// The size of a trade is measured against the recorded principal. A pool
/// without principal therefore admits no trade that moves anything: it is
/// rejected as too large, like any other trade above the limit.
pub fn execute_trade(ctx: &ExecuteTrade, swap: RaydiumSwap) -> (result: Result<
    SwapOrder,
    ErrorCode,
>)
    ensures
        match result {
            Ok(order) => trade_rejection(*ctx, swap) is None && order == swap_order(*ctx, swap),
            Err(code) => trade_rejection(*ctx, swap) == Some(code),
        },
{
    if ctx.agent_pool.paused {
        return Err(ErrorCode::PoolPaused);
    }
    if ctx.agent_pool.agent != ctx.agent {
        return Err(ErrorCode::Unauthorized);
    }
    proof {
        lemma_same_bytes_same_key(ctx.agent_pool.agent, ctx.agent);
    }
    if !trade_within_limit(swap.amount_in, ctx.agent_pool.total_staked) {
        return Err(ErrorCode::TradeSizeTooLarge);
    }
    Ok(
        SwapOrder {
            agent: ctx.agent,
            raydium_program: ctx.raydium_program,
            pool_vault: ctx.pool_vault.key,
            token_a_vault: ctx.token_a_vault.key,
            token_b_vault: ctx.token_b_vault.key,
            amm_pool: ctx.amm_pool.key,
            amm: ctx.amm,
            amount_in: swap.amount_in,
            min_amount_out: swap.min_amount_out,
        },
    )
}

/// What a trade reports once the venue has answered: any failure of the
/// venue is a `RaydiumError`.
pub fn settle_trade(executed: bool) -> (result: Result<(), ErrorCode>)
    ensures
        result == if executed {
            Ok::<(), ErrorCode>(())
        } else {
            Err::<(), ErrorCode>(ErrorCode::RaydiumError)
        },
{
    if executed {
        Ok(())
    } else {
        Err(ErrorCode::RaydiumError)
    }
}

} // verus!
