//! Errors of the market maker, and how the curve's errors map onto them.
use vstd::prelude::*;

verus! {

/// Why a market-maker instruction was refused.
#[derive(Clone, Copy, Debug, PartialEq, Eq, Structural)]
pub enum AmmError {
    /// Pool is locked.
    PoolLocked,
    /// Invalid amount: must be greater than zero.
    InvalidAmount,
    /// Slippage limit exceeded.
    SlippageExceeded,
    /// Insufficient token X.
    InsufficientTokenX,
    /// Insufficient token Y.
    InsufficientTokenY,
}

/// Why the constant-product curve refused a computation: the failures that
/// the market maker tells apart, and any other.
#[derive(Clone, Copy, Debug, PartialEq, Eq, Structural)]
pub enum CurveError {
    SlippageLimitExceeded,
    ZeroBalance,
    InsufficientBalance,
    /// Any other failure of the curve (overflow, invalid precision, ...).
    OtherFailure,
}

/// The market maker's error for a curve failure: slippage stays slippage,
/// every other failure is an invalid amount.
pub open spec fn amm_error_of(e: CurveError) -> AmmError {
    match e {
        CurveError::SlippageLimitExceeded => AmmError::SlippageExceeded,
        _ => AmmError::InvalidAmount,
    }
}

impl From<CurveError> for AmmError {
    fn from(e: CurveError) -> (r: AmmError) {
        match e {
            CurveError::SlippageLimitExceeded => AmmError::SlippageExceeded,
            CurveError::ZeroBalance => AmmError::InvalidAmount,
            CurveError::InsufficientBalance => AmmError::InvalidAmount,
            _ => AmmError::InvalidAmount,
        }
    }
}

impl vstd::std_specs::convert::FromSpecImpl<CurveError> for AmmError {
    open spec fn obeys_from_spec() -> bool {
        true
    }

    open spec fn from_spec(e: CurveError) -> AmmError {
        amm_error_of(e)
    }
}

} // verus!
