//! An NFT marketplace for Metaplex Core assets: listings paid in SOL or in a
//! token, and offers escrowed in SOL.
pub mod errors;
pub mod fees;
pub mod instructions;
pub mod laws;
pub mod state;
