//! A constant-product market maker (x · y = k): liquidity providers deposit
//! both tokens for LP tokens, traders swap one token for the other.
pub mod curve;
pub mod errors;
pub mod instructions;
pub mod laws;
pub mod state;
