//! The marketplace program's accounts.
use vstd::prelude::*;
use vstd::utf8::encode_utf8;
use crate::key::Key;

verus! {

/// Highest fee, in basis points (100 %).
pub const MAX_FEE_BPS: u16 = 10_000;

/// Longest marketplace name, in bytes.
pub const MAX_NAME_LEN: usize = 32;

/// A marketplace: its admin, its fee and its name.
#[derive(Debug)]
pub struct Marketplace {
    pub admin: Key,
    /// Fee on every sale, in basis points.
    pub fee: u16,
    pub bump: u8,
    pub treasury_bump: u8,
    pub rewards_bump: u8,
    pub name: String,
}

impl Marketplace {
    /// What `initialize` guarantees of every marketplace: a fee of at most
    /// 100 % and a name of at most 32 bytes.
    pub open spec fn well_formed(&self) -> bool {
        &&& self.fee <= MAX_FEE_BPS
        &&& encode_utf8(self.name@).len() <= MAX_NAME_LEN
    }
}

/// An asset listed for sale, held by the listing account until it is sold or
/// delisted.
#[derive(Clone, Copy, Debug, PartialEq, Eq, Structural)]
pub struct Listing {
    pub maker: Key,
    pub asset: Key,
    pub price: u64,
    /// `None` for a price in SOL, else the mint of the token that pays.
    pub payment_mint: Option<Key>,
    pub bump: u8,
}

impl Listing {
    /// Bytes of the account's data after its discriminator.
    pub const INIT_SPACE: usize = 32 + 32 + 8 + (1 + 32) + 1;
}

/// A buyer's offer on a listed asset, its lamports held in an escrow vault.
#[derive(Clone, Copy, Debug, PartialEq, Eq, Structural)]
pub struct Offer {
    pub buyer: Key,
    pub asset: Key,
    /// Lamports escrowed in the vault.
    pub amount: u64,
    pub bump: u8,
    pub vault_bump: u8,
}

impl Offer {
    /// Bytes of the account's data after its discriminator.
    pub const INIT_SPACE: usize = 32 + 32 + 8 + 1 + 1;
}

} // verus!
