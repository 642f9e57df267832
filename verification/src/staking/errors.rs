//! Errors of the staking program.
use vstd::prelude::*;

verus! {

/// Why a staking instruction was refused.
#[derive(Clone, Copy, Debug, PartialEq, Eq, Structural)]
pub enum StakingError {
    /// Invalid update authority.
    InvalidUpdateAuthority,
    /// Invalid owner.
    InvalidOwner,
    /// Asset already staked.
    AlreadyStaked,
    /// Asset not staked.
    NotStaked,
    /// Freeze period has not elapsed yet.
    FreezePeriodNotElapsed,
    /// Invalid timestamp.
    InvalidTimestamp,
}

} // verus!
