//! Laws of the market maker's deposits and swaps.
use vstd::prelude::*;
use crate::amm::curve::{LiquidityPair, SwapResult, XYAmounts};
use crate::amm::errors::{AmmError, CurveError};
use crate::amm::instructions::{
    Deposit, DepositPlan, DepositQuote, Swap, deposit_quote, deposit_settlement, swap_quote, swap_settlement,
};

verus! {

/// The whole deposit: the first step, then, where it asks the curve, the
/// second step on the curve's answer `curve`.
pub open spec fn deposit_outcome(
    d: Deposit,
    amount: u64,
    max_x: u64,
    max_y: u64,
    curve: Result<XYAmounts, CurveError>,
) -> Result<DepositPlan, AmmError> {
    match deposit_quote(d, amount, max_x, max_y) {
        Err(e) => Err(e),
        Ok(DepositQuote::Initial(p)) => Ok(p),
        Ok(DepositQuote::Curve(_)) => deposit_settlement(amount, max_x, max_y, curve),
    }
}

/// A locked pool refuses every deposit and every swap with `PoolLocked`,
/// whatever the curve would answer.
pub proof fn lemma_locked_pool_refuses(
    d: Deposit,
    s: Swap,
    amount: u64,
    max_x: u64,
    max_y: u64,
    curve: Result<XYAmounts, CurveError>,
    is_x: bool,
    minimum: u64,
)
    requires
        d.config.locked,
        s.config.locked,
    ensures
        deposit_outcome(d, amount, max_x, max_y, curve) == Err::<DepositPlan, AmmError>(AmmError::PoolLocked),
        swap_quote(s, is_x, amount, minimum) matches Err(e) && e == AmmError::PoolLocked,
{
}

/// A deposit that goes through mints the LP tokens asked for, and never
/// takes more of either token than the provider allowed; into an empty pool
/// it takes exactly the amounts allowed.
pub proof fn lemma_deposit_within_limits(
    d: Deposit,
    amount: u64,
    max_x: u64,
    max_y: u64,
    curve: Result<XYAmounts, CurveError>,
)
    ensures
        deposit_outcome(d, amount, max_x, max_y, curve) matches Ok(p) ==> p.lp == amount && p.x <= max_x && p.y
            <= max_y && amount > 0,
        !d.config.locked && amount > 0 && d.lp_supply == 0 && d.vault_x == 0 && d.vault_y == 0
            ==> deposit_outcome(d, amount, max_x, max_y, curve) == Ok::<DepositPlan, AmmError>(
            DepositPlan { x: max_x, y: max_y, lp: amount },
        ),
{
}

/// A swap that goes through moves a positive amount of the token paid in
/// into the pool and a positive amount of the other token out of it.
pub proof fn lemma_swap_moves_both_ways(is_x: bool, curve: Result<SwapResult, CurveError>)
    ensures
        swap_settlement(is_x, curve) matches Ok(p) ==> p.x_in == is_x && p.deposit > 0 && p.withdraw > 0,
{
}

/// A swap goes to the curve exactly when the pool is unlocked and the amount
/// is not zero, and then asks it on the pool as it stands: the X vault as
/// `x`, the Y vault as `y`, the LP supply as `l`, the pool's fee, the token
/// paid in, the amount and the least amount accepted out.
pub proof fn lemma_swap_asks_on_the_pool(s: Swap, is_x: bool, amount: u64, minimum: u64)
    ensures
        swap_quote(s, is_x, amount, minimum) is Ok <==> (!s.config.locked && amount > 0),
        swap_quote(s, is_x, amount, minimum) matches Ok(q) ==> {
            &&& q.x == s.vault_x
            &&& q.y == s.vault_y
            &&& q.l == s.lp_supply
            &&& q.fee == s.config.fee
            &&& q.pair == (if is_x {
                LiquidityPair::X
            } else {
                LiquidityPair::Y
            })
            &&& q.amount == amount
            &&& q.minimum == minimum
        },
{
}

/// A deposit into a pool that holds something asks the curve, on the pool
/// as it stands, what `amount` LP tokens cost: the X vault as `x`, the Y
/// vault as `y`, the LP supply as `l`, at a precision of 1_000_000; a
/// deposit into an empty pool asks nothing and deposits the most the
/// provider allows.
pub proof fn lemma_deposit_asks_on_the_pool(d: Deposit, amount: u64, max_x: u64, max_y: u64)
    ensures
        deposit_quote(d, amount, max_x, max_y) is Ok <==> (!d.config.locked && amount > 0),
        deposit_quote(d, amount, max_x, max_y) matches Ok(DepositQuote::Curve(q)) ==> {
            &&& !(d.vault_x == 0 && d.vault_y == 0 && d.lp_supply == 0)
            &&& q.x == d.vault_x
            &&& q.y == d.vault_y
            &&& q.l == d.lp_supply
            &&& q.a == amount
            &&& q.precision == 1_000_000
        },
        deposit_quote(d, amount, max_x, max_y) matches Ok(DepositQuote::Initial(p)) ==> {
            &&& d.vault_x == 0 && d.vault_y == 0 && d.lp_supply == 0
            &&& p == (DepositPlan { x: max_x, y: max_y, lp: amount })
        },
{
}

} // verus!
