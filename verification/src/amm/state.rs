//! The pool's configuration and reserves.
use vstd::prelude::*;
use crate::key::Key;

verus! {

/// A pool's configuration, one per (mint X, mint Y, seed).
#[derive(Clone, Copy, Debug, PartialEq, Eq, Structural)]
pub struct Config {
    /// Tells apart pools of the same token pair.
    pub seed: u64,
    /// Optional admin; `None` for a permissionless pool.
    pub authority: Option<Key>,
    pub mint_x: Key,
    pub mint_y: Key,
    /// Swap fee, in basis points.
    pub fee: u16,
    /// Emergency lock: blocks deposits, withdrawals and swaps.
    pub locked: bool,
    pub config_bump: u8,
    pub lp_bump: u8,
}

impl Config {
    /// Bytes of the account, its discriminator included.
    pub const INIT_SPACE: usize = 8 + 8 + 1 + 32 + 32 + 32 + 2 + 1 + 1 + 1;
}

} // verus!
