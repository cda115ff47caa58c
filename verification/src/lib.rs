//! Share accounting for pooled staking under a trading agent.
//!
//! Participants deposit into a pool that one agent controls, receive a fixed
//! claim on it in basis points, and later redeem that claim against the value
//! the pool's vault holds at that moment. The agent may trade a bounded part
//! of the pool. Every operation here is a decision over plain records: it
//! either rejects and leaves the records as they were, or applies its changes
//! and names the custody transfers or the swap that the caller has to carry
//! out. Moving value and talking to the swap venue are the caller's part.

pub mod constants;
pub mod error;
pub mod fees;
pub mod initialize;
pub mod ledger;
pub mod pda;
pub mod pubkey;
pub mod shares;
pub mod stake;
pub mod state;
pub mod trade;
pub mod venue;
pub mod withdraw;

pub use crate::constants::RAYDIUM_PROGRAM_ID;
pub use crate::error::ErrorCode;
pub use crate::initialize::{initialize_agent_pool, InitializeAgentPool};
pub use crate::pda::{
    get_agent_pool_pda, get_stake_position_pda, try_get_agent_pool_pda, try_get_stake_position_pda,
};
pub use crate::pubkey::Pubkey;
pub use crate::stake::{stake, Stake, StakeTransfers};
pub use crate::state::{AgentPool, StakePosition, TokenAccount, TransferOrder};
pub use crate::trade::{execute_trade, settle_trade, ExecuteTrade, RaydiumSwap, SwapOrder};
pub use crate::venue::{swap_instruction, AccountMeta, Instruction, VenueAccounts};
pub use crate::withdraw::{withdraw, Withdraw, WithdrawTransfers};
