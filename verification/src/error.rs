use vstd::prelude::*;

verus! {

/// Why an operation was rejected. A rejected operation changes nothing.
#[derive(Clone, Copy, Debug, PartialEq, Eq, Structural)]
pub enum ErrorCode {
    /// The caller is not the pool's agent.
    Unauthorized,
    /// The deposit is below the minimum stake.
    StakeTooSmall,
    /// The swap venue failed to execute the trade.
    RaydiumError,
    /// The new share would push the pool's outstanding shares over the whole.
    InvalidShare,
    /// The trade moves more of the pool than one trade may.
    TradeSizeTooLarge,
    /// The pool is paused.
    PoolPaused,
    /// A pool counter would leave its range.
    MathOverflow,
    /// The deposit would earn less than the minimum share.
    ShareTooSmall,
    /// The position is still locked.
    StakeDurationNotMet,
    /// The redemption is worth less than the dust threshold.
    DustAmount,
    /// Reserved; no operation reports it.
    EmergencyOnly,
}

} // verus!
