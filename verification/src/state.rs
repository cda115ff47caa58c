use vstd::prelude::*;
use crate::constants::{BPS_DENOMINATOR, MIN_SHARE_BPS};
use crate::pubkey::Pubkey;

verus! {

/// The record of one pool; there is one per agent.
#[derive(Clone, Copy, Debug, PartialEq, Eq)]
pub struct AgentPool {
    /// The identity that may trade the pool.
    pub agent: Pubkey,
    /// Net-of-fee principal attributed to the open positions. This is a
    /// running total of deposits and redemptions, not the vault's value.
    pub total_staked: u64,
    pub fee_destination: Pubkey,
    /// The custody account that holds the pool's asset.
    pub vault: Pubkey,
    /// While set, stakes and trades are rejected.
    pub paused: bool,
    /// Sum of the shares of the open positions, in basis points.
    pub total_shares_bps: u64,
    pub bump: u8,
    /// While set, withdrawals skip the lock period.
    pub emergency_mode: bool,
}

impl AgentPool {
    /// The outstanding shares never exceed the whole.
    pub open spec fn wf(&self) -> bool {
        self.total_shares_bps <= BPS_DENOMINATOR
    }
}

/// The record of one participant's claim on one pool.
#[derive(Clone, Copy, Debug, PartialEq, Eq)]
pub struct StakePosition {
    pub owner: Pubkey,
    /// Address of the pool record the claim is on.
    pub agent_pool: Pubkey,
    /// Net-of-fee principal at the time of the stake.
    pub initial_stake: u64,
    /// The claim, in basis points of the pool; fixed when the position opens.
    pub share_bps: u64,
    /// When the position was opened, in seconds.
    pub stake_timestamp: i64,
    pub bump: u8,
}

impl StakePosition {
    /// An open position holds a share between the minimum and the whole.
    pub open spec fn wf(&self) -> bool {
        MIN_SHARE_BPS <= self.share_bps <= BPS_DENOMINATOR
    }

    /// The record with every field cleared, as a closed position leaves it.
    pub open spec fn cleared() -> StakePosition {
        StakePosition {
            owner: Pubkey::zero(),
            agent_pool: Pubkey::zero(),
            initial_stake: 0,
            share_bps: 0,
            stake_timestamp: 0,
            bump: 0,
        }
    }
}

/// A custody account as the operations see it: its address and its balance.
#[derive(Clone, Copy, Debug, PartialEq, Eq)]
pub struct TokenAccount {
    pub key: Pubkey,
    pub amount: u64,
}

/// A transfer between custody accounts that the caller has to carry out.
#[derive(Clone, Copy, Debug, PartialEq, Eq)]
pub struct TransferOrder {
    pub from: Pubkey,
    pub to: Pubkey,
    /// The identity that authorises the debit.
    pub authority: Pubkey,
    pub amount: u64,
}

} // verus!
