use vstd::prelude::*;

verus! {

/// Smallest gross deposit a stake accepts, in minor units (one whole unit).
pub const MIN_STAKE_SOL: u64 = 1_000_000_000;

/// Exit fee in basis points, charged on the profit of a withdrawal.
pub const UNSTAKE_FEE_BPS: u16 = 1000;

/// Entry fee in basis points, charged on the gross deposit.
pub const STAKE_FEE_BPS: u16 = 300;

/// Seconds a position stays locked after it was opened.
pub const MIN_STAKE_DURATION: i64 = 3600;

/// Smallest share, in basis points, a new position may receive.
pub const MIN_SHARE_BPS: u64 = 10;

/// Largest part of the pool's recorded principal, in basis points, one trade
/// may move.
pub const MAX_TRADE_SIZE_BPS: u16 = 2000;

/// Redemptions worth less than this many minor units are refused.
pub const DUST_THRESHOLD: u64 = 1_000;

/// Basis points in a whole.
pub const BPS_DENOMINATOR: u64 = 10_000;

/// Address of the swap venue's program, in base58.
pub const RAYDIUM_PROGRAM_ID: &'static str = "675kPX9MHTjS2zt1qfr1NYHuzeLXfQM9H24wFSUt1Mp8";

} // verus!
