//! Non-custodial NFT staking: the asset stays with its owner, frozen while
//! staked, and the staking state lives in the asset's attributes.
pub mod asset;
pub mod attributes;
pub mod errors;
pub mod instructions;
pub mod laws;
pub mod state;
pub mod timestamp;
