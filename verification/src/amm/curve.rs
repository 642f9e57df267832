//! What the market maker asks of the constant-product curve and what the
//! curve answers. The curve itself (`constant-product-curve`) is computed by
//! the caller; these types carry its arguments and results.
use vstd::prelude::*;

verus! {

/// Fixed-point precision of the curve's ratio computations (six decimals).
pub const CURVE_PRECISION: u32 = 1_000_000;

/// Token amounts of the pair.
#[derive(Clone, Copy, Debug, PartialEq, Eq, Structural)]
pub struct XYAmounts {
    pub x: u64,
    pub y: u64,
}

/// Which token of the pair goes into the pool.
#[derive(Clone, Copy, Debug, PartialEq, Eq, Structural)]
pub enum LiquidityPair {
    X,
    Y,
}

/// What a swap on the curve moves: the amount that goes into the pool and
/// the amount that comes out of it.
#[derive(Clone, Copy, Debug, PartialEq, Eq, Structural)]
pub struct SwapResult {
    pub deposit: u64,
    pub withdraw: u64,
}

/// The arguments of `ConstantProduct::xy_deposit_amounts_from_l`: reserves
/// `x` and `y`, LP supply `l`, LP tokens asked for `a`, and the precision.
#[derive(Clone, Copy, Debug, PartialEq, Eq, Structural)]
pub struct DepositCurveQuery {
    pub x: u64,
    pub y: u64,
    pub l: u64,
    pub a: u64,
    pub precision: u32,
}

/// The arguments of `ConstantProduct::init` (reserves, LP supply, fee, with
/// the default precision) and of the swap on the curve it gives (the token
/// paid in, the amount and the least amount accepted out).
#[derive(Clone, Copy, Debug, PartialEq, Eq, Structural)]
pub struct SwapCurveQuery {
    pub x: u64,
    pub y: u64,
    pub l: u64,
    pub fee: u16,
    pub pair: LiquidityPair,
    pub amount: u64,
    pub minimum: u64,
}

} // verus!
