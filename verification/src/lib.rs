//! Verified decision logic of a set of on-chain programs: a constant-product
//! market maker, an NFT marketplace, a non-custodial NFT staking program and a
//! lamports escrow.
use vstd::prelude::*;

pub mod amm;
pub mod escrow;
pub mod key;
pub mod marketplace;
pub mod staking;

verus! {

} // verus!
