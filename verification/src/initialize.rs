use vstd::prelude::*;
use crate::error::ErrorCode;
use crate::pubkey::Pubkey;
use crate::state::{AgentPool, TokenAccount};

verus! {

/// What the creation of a pool works on: the freshly allocated pool record,
/// the agent it is for, and the vault that will hold the pool's asset.
#[derive(Clone, Copy, Debug, PartialEq, Eq)]
pub struct InitializeAgentPool {
    pub agent_pool: AgentPool,
    /// Bump seed of the pool record's address.
    pub agent_pool_bump: u8,
    pub agent: Pubkey,
    pub pool_vault: TokenAccount,
}

/// The pool record as creation leaves it: empty, open for business, owned by
/// the agent. The fee destination is not part of creation and stays as the
/// record held it.
pub open spec fn created_pool(ctx: InitializeAgentPool) -> AgentPool {
    AgentPool {
        agent: ctx.agent,
        total_staked: 0,
        fee_destination: ctx.agent_pool.fee_destination,
        vault: ctx.pool_vault.key,
        paused: false,
        total_shares_bps: 0,
        bump: ctx.agent_pool_bump,
        emergency_mode: false,
    }
}

/// Creates the pool of `ctx.agent` in the record `ctx.agent_pool`. It always
/// succeeds: that an agent has one pool only is the record store's affair.
pub fn initialize_agent_pool(ctx: &mut InitializeAgentPool) -> (result: Result<(), ErrorCode>)
    ensures
        result is Ok,
        final(ctx).agent_pool == created_pool(*old(ctx)),
        final(ctx).agent_pool.wf(),
        final(ctx).agent_pool_bump == old(ctx).agent_pool_bump,
        final(ctx).agent == old(ctx).agent,
        final(ctx).pool_vault == old(ctx).pool_vault,
{
    ctx.agent_pool.agent = ctx.agent;
    ctx.agent_pool.total_staked = 0;
    ctx.agent_pool.vault = ctx.pool_vault.key;
    ctx.agent_pool.paused = false;
    ctx.agent_pool.total_shares_bps = 0;
    ctx.agent_pool.bump = ctx.agent_pool_bump;
    ctx.agent_pool.emergency_mode = false;
    Ok(())
}

} // verus!
