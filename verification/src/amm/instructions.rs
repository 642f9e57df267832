//! The market maker's deposit and swap, as decisions around the curve: each
//! instruction first checks its request and says what to ask of the curve,
//! then turns the curve's answer into the transfers to make.
use vstd::prelude::*;
use crate::amm::curve::{
    CURVE_PRECISION, DepositCurveQuery, LiquidityPair, SwapCurveQuery, SwapResult, XYAmounts,
};
use crate::amm::errors::{AmmError, CurveError, amm_error_of};
use crate::amm::state::Config;

verus! {

/// What a deposit moves: `x` and `y` tokens from the provider into the
/// vaults, and `lp` LP tokens minted to the provider.
#[derive(Clone, Copy, Debug, PartialEq, Eq, Structural)]
pub struct DepositPlan {
    pub x: u64,
    pub y: u64,
    pub lp: u64,
}

/// The first step of a deposit: either the plan itself (the pool is empty and
/// the provider sets the ratio), or the question to put to the curve.
#[derive(Clone, Copy, Debug, PartialEq, Eq, Structural)]
pub enum DepositQuote {
    Initial(DepositPlan),
    Curve(DepositCurveQuery),
}

/// Whether the pool holds nothing and has issued no LP token.
pub open spec fn pool_is_empty(vault_x: u64, vault_y: u64, lp_supply: u64) -> bool {
    lp_supply == 0 && vault_x == 0 && vault_y == 0
}

/// What `deposit` reads: the pool's configuration, its reserves and the LP
/// token supply.
#[derive(Clone, Copy, Debug, PartialEq, Eq, Structural)]
pub struct Deposit {
    pub config: Config,
    pub vault_x: u64,
    pub vault_y: u64,
    pub lp_supply: u64,
}

/// The first step of depositing for `amount` LP tokens, paying at most
/// `max_x` and `max_y`: refused with `PoolLocked` on a locked pool, then with
/// `InvalidAmount` for zero LP tokens; on an empty pool the plan deposits
/// `max_x` and `max_y`; else the curve is asked for the amounts that
/// `amount` LP tokens cost at the current reserves.
pub open spec fn deposit_quote(d: Deposit, amount: u64, max_x: u64, max_y: u64) -> Result<DepositQuote, AmmError> {
    if d.config.locked {
        Err(AmmError::PoolLocked)
    } else if amount == 0 {
        Err(AmmError::InvalidAmount)
    } else if pool_is_empty(d.vault_x, d.vault_y, d.lp_supply) {
        Ok(DepositQuote::Initial(DepositPlan { x: max_x, y: max_y, lp: amount }))
    } else {
        Ok(
            DepositQuote::Curve(
                DepositCurveQuery {
                    x: d.vault_x,
                    y: d.vault_y,
                    l: d.lp_supply,
                    a: amount,
                    precision: CURVE_PRECISION,
                },
            ),
        )
    }
}

/// The second step of a deposit, from the curve's answer: the curve's error
/// mapped, then `InsufficientTokenX` / `InsufficientTokenY` where the amount
/// asked exceeds what the provider allows.
pub open spec fn deposit_settlement(
    amount: u64,
    max_x: u64,
    max_y: u64,
    curve: Result<XYAmounts, CurveError>,
) -> Result<DepositPlan, AmmError> {
    match curve {
        Err(e) => Err(amm_error_of(e)),
        Ok(a) => if a.x > max_x {
            Err(AmmError::InsufficientTokenX)
        } else if a.y > max_y {
            Err(AmmError::InsufficientTokenY)
        } else {
            Ok(DepositPlan { x: a.x, y: a.y, lp: amount })
        },
    }
}

impl Deposit {
    /// The first step of a deposit (`deposit_quote`).
    pub fn deposit(&self, amount: u64, max_x: u64, max_y: u64) -> (r: Result<DepositQuote, AmmError>)
        ensures
            r == deposit_quote(*self, amount, max_x, max_y),
    {
        if self.config.locked {
            return Err(AmmError::PoolLocked);
        }
        if amount == 0 {
            return Err(AmmError::InvalidAmount);
        }
        if self.lp_supply == 0 && self.vault_x == 0 && self.vault_y == 0 {
            Ok(DepositQuote::Initial(DepositPlan { x: max_x, y: max_y, lp: amount }))
        } else {
            Ok(
                DepositQuote::Curve(
                    DepositCurveQuery {
                        x: self.vault_x,
                        y: self.vault_y,
                        l: self.lp_supply,
                        a: amount,
                        precision: CURVE_PRECISION,
                    },
                ),
            )
        }
    }

    /// The second step of a deposit (`deposit_settlement`).
    pub fn settle_deposit(amount: u64, max_x: u64, max_y: u64, curve: Result<XYAmounts, CurveError>) -> (r:
        Result<DepositPlan, AmmError>)
        ensures
            r == deposit_settlement(amount, max_x, max_y, curve),
    {
        let a = match curve {
            Err(e) => return Err(AmmError::from(e)),
            Ok(a) => a,
        };
        if a.x > max_x {
            return Err(AmmError::InsufficientTokenX);
        }
        if a.y > max_y {
            return Err(AmmError::InsufficientTokenY);
        }
        Ok(DepositPlan { x: a.x, y: a.y, lp: amount })
    }
}

/// What a swap moves: `deposit` of the token paid in (X where `x_in`) from
/// the trader into its vault, and `withdraw` of the other token from its
/// vault to the trader.
#[derive(Clone, Copy, Debug, PartialEq, Eq, Structural)]
pub struct SwapPlan {
    pub x_in: bool,
    pub deposit: u64,
    pub withdraw: u64,
}

/// What `swap` reads: the pool's configuration, its reserves and the LP
/// token supply.
#[derive(Clone, Copy, Debug, PartialEq, Eq, Structural)]
pub struct Swap {
    pub config: Config,
    pub vault_x: u64,
    pub vault_y: u64,
    pub lp_supply: u64,
}

/// The first step of swapping `amount` of X (`is_x`) or of Y for at least
/// `minimum` of the other: refused with `PoolLocked` on a locked pool, then
/// with `InvalidAmount` for zero; else the question to put to the curve,
/// built on the pool's reserves, LP supply and fee.
pub open spec fn swap_quote(s: Swap, is_x: bool, amount: u64, minimum: u64) -> Result<SwapCurveQuery, AmmError> {
    if s.config.locked {
        Err(AmmError::PoolLocked)
    } else if amount == 0 {
        Err(AmmError::InvalidAmount)
    } else {
        Ok(
            SwapCurveQuery {
                x: s.vault_x,
                y: s.vault_y,
                l: s.lp_supply,
                fee: s.config.fee,
                pair: if is_x { LiquidityPair::X } else { LiquidityPair::Y },
                amount,
                minimum,
            },
        )
    }
}

/// The second step of a swap, from the curve's answer: the curve's error
/// mapped, then `InvalidAmount` where nothing would go in or nothing would
/// come out.
pub open spec fn swap_settlement(is_x: bool, curve: Result<SwapResult, CurveError>) -> Result<SwapPlan, AmmError> {
    match curve {
        Err(e) => Err(amm_error_of(e)),
        Ok(res) => if res.deposit == 0 || res.withdraw == 0 {
            Err(AmmError::InvalidAmount)
        } else {
            Ok(SwapPlan { x_in: is_x, deposit: res.deposit, withdraw: res.withdraw })
        },
    }
}

impl Swap {
    /// The first step of a swap (`swap_quote`).
    pub fn swap(&self, is_x: bool, amount: u64, minimum: u64) -> (r: Result<SwapCurveQuery, AmmError>)
        ensures
            r == swap_quote(*self, is_x, amount, minimum),
    {
        if self.config.locked {
            return Err(AmmError::PoolLocked);
        }
        if amount == 0 {
            return Err(AmmError::InvalidAmount);
        }
        let pair = if is_x {
            LiquidityPair::X
        } else {
            LiquidityPair::Y
        };
        Ok(
            SwapCurveQuery {
                x: self.vault_x,
                y: self.vault_y,
                l: self.lp_supply,
                fee: self.config.fee,
                pair,
                amount,
                minimum,
            },
        )
    }

    /// The second step of a swap (`swap_settlement`).
    pub fn settle_swap(is_x: bool, curve: Result<SwapResult, CurveError>) -> (r: Result<SwapPlan, AmmError>)
        ensures
            r == swap_settlement(is_x, curve),
    {
        let res = match curve {
            Err(e) => return Err(AmmError::from(e)),
            Ok(res) => res,
        };
        if res.deposit == 0 {
            return Err(AmmError::InvalidAmount);
        }
        if res.withdraw == 0 {
            return Err(AmmError::InvalidAmount);
        }
        Ok(SwapPlan { x_in: is_x, deposit: res.deposit, withdraw: res.withdraw })
    }
}

} // verus!
