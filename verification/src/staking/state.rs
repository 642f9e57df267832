//! The staking program's configuration account.
use vstd::prelude::*;

verus! {

/// Protocol configuration, one per collection.
#[derive(Clone, Copy, Debug, PartialEq, Eq, Structural)]
pub struct Config {
    /// Reward tokens (in base units) paid per full day staked.
    pub rewards_basis_points: u16,
    /// Minimum staking duration, in days.
    pub freeze_period: u32,
    pub config_bump: u8,
    pub rewards_bump: u8,
}

/// Seconds in a day.
pub const SECONDS_PER_DAY: i64 = 86_400;

} // verus!
