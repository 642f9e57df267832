//! Errors of the marketplace program.
use vstd::prelude::*;

verus! {

/// Why a marketplace instruction was refused.
#[derive(Clone, Copy, Debug, PartialEq, Eq, Structural)]
pub enum MarketplaceError {
    /// Fee must be between 0 and 10000 basis points.
    InvalidFee,
    /// Marketplace name exceeds 32 characters.
    NameTooLong,
    /// Invalid maker account.
    InvalidMaker,
    /// Invalid asset account.
    InvalidAsset,
    /// Invalid payment mint for this listing.
    InvalidPaymentMint,
    /// This listing requires SOL payment.
    WrongPaymentMethod,
    /// Insufficient funds.
    InsufficientFunds,
    /// Invalid offer amount.
    InvalidOfferAmount,
    /// Invalid buyer account.
    InvalidBuyer,
    /// Invalid treasury account.
    InvalidTreasury,
}

} // verus!
