use solana_programs::amm::curve::{
    DepositCurveQuery, LiquidityPair, SwapCurveQuery, SwapResult, XYAmounts, CURVE_PRECISION,
};
use solana_programs::amm::errors::{AmmError, CurveError};
use solana_programs::amm::instructions::{Deposit, DepositPlan, DepositQuote, Swap, SwapPlan};
use solana_programs::amm::state::Config;
use solana_programs::key::Key;

fn config(locked: bool) -> Config {
    Config {
        seed: 1,
        authority: None,
        mint_x: Key(1, 0, 0, 0),
        mint_y: Key(2, 0, 0, 0),
        fee: 100,
        locked,
        config_bump: 254,
        lp_bump: 253,
    }
}

#[test]
fn test_deposit() {
    // First deposit into an empty pool: free 1:1 ratio, 1 000 LP tokens.
    let d = Deposit { config: config(false), vault_x: 0, vault_y: 0, lp_supply: 0 };
    let lp_amount: u64 = 1_000;
    let quote = d.deposit(lp_amount, lp_amount, lp_amount).unwrap();
    assert_eq!(
        quote,
        DepositQuote::Initial(DepositPlan { x: lp_amount, y: lp_amount, lp: lp_amount }),
        "vault_x and vault_y must receive the deposited amounts, LP supply the minted amount"
    );
}

#[test]
fn deposit_into_funded_pool_asks_the_curve() {
    let d = Deposit { config: config(false), vault_x: 1_000, vault_y: 2_000, lp_supply: 1_000 };
    assert_eq!(
        d.deposit(500, 600, 1_100),
        Ok(DepositQuote::Curve(DepositCurveQuery {
            x: 1_000,
            y: 2_000,
            l: 1_000,
            a: 500,
            precision: CURVE_PRECISION,
        }))
    );
    assert_eq!(CURVE_PRECISION, 1_000_000);
}

#[test]
fn deposit_refusals() {
    let locked = Deposit { config: config(true), vault_x: 0, vault_y: 0, lp_supply: 0 };
    assert_eq!(locked.deposit(1, 1, 1), Err(AmmError::PoolLocked));
    let open = Deposit { config: config(false), vault_x: 0, vault_y: 0, lp_supply: 0 };
    assert_eq!(open.deposit(0, 1, 1), Err(AmmError::InvalidAmount));
    // A pool with only LP supply is not empty.
    let funded = Deposit { config: config(false), vault_x: 0, vault_y: 0, lp_supply: 5 };
    assert!(matches!(funded.deposit(1, 1, 1), Ok(DepositQuote::Curve(_))));
}

#[test]
fn deposit_settlement_checks_limits() {
    let ok = Deposit::settle_deposit(500, 600, 1_100, Ok(XYAmounts { x: 500, y: 1_000 }));
    assert_eq!(ok, Ok(DepositPlan { x: 500, y: 1_000, lp: 500 }));
    assert_eq!(
        Deposit::settle_deposit(500, 499, 1_100, Ok(XYAmounts { x: 500, y: 1_000 })),
        Err(AmmError::InsufficientTokenX)
    );
    assert_eq!(
        Deposit::settle_deposit(500, 600, 999, Ok(XYAmounts { x: 500, y: 1_000 })),
        Err(AmmError::InsufficientTokenY)
    );
    // X is checked before Y.
    assert_eq!(
        Deposit::settle_deposit(500, 0, 0, Ok(XYAmounts { x: 500, y: 1_000 })),
        Err(AmmError::InsufficientTokenX)
    );
    assert_eq!(
        Deposit::settle_deposit(500, 600, 1_100, Err(CurveError::ZeroBalance)),
        Err(AmmError::InvalidAmount)
    );
}

#[test]
fn curve_errors_map_to_amm_errors() {
    assert_eq!(AmmError::from(CurveError::SlippageLimitExceeded), AmmError::SlippageExceeded);
    assert_eq!(AmmError::from(CurveError::ZeroBalance), AmmError::InvalidAmount);
    assert_eq!(AmmError::from(CurveError::InsufficientBalance), AmmError::InvalidAmount);
    assert_eq!(AmmError::from(CurveError::OtherFailure), AmmError::InvalidAmount);
}

#[test]
fn swap_asks_the_curve_with_pool_state() {
    let s = Swap { config: config(false), vault_x: 1_000_000, vault_y: 1_000_000, lp_supply: 1_000_000 };
    assert_eq!(
        s.swap(true, 1_000, 1),
        Ok(SwapCurveQuery {
            x: 1_000_000,
            y: 1_000_000,
            l: 1_000_000,
            fee: 100,
            pair: LiquidityPair::X,
            amount: 1_000,
            minimum: 1,
        })
    );
    assert_eq!(s.swap(false, 7, 3).unwrap().pair, LiquidityPair::Y);
}

#[test]
fn swap_refusals() {
    let locked = Swap { config: config(true), vault_x: 10, vault_y: 10, lp_supply: 10 };
    assert_eq!(locked.swap(true, 5, 0), Err(AmmError::PoolLocked));
    let open = Swap { config: config(false), vault_x: 10, vault_y: 10, lp_supply: 10 };
    assert_eq!(open.swap(true, 0, 0), Err(AmmError::InvalidAmount));
}

#[test]
fn swap_settlement() {
    assert_eq!(
        Swap::settle_swap(true, Ok(SwapResult { deposit: 1_000, withdraw: 989 })),
        Ok(SwapPlan { x_in: true, deposit: 1_000, withdraw: 989 })
    );
    assert_eq!(
        Swap::settle_swap(false, Ok(SwapResult { deposit: 0, withdraw: 989 })),
        Err(AmmError::InvalidAmount)
    );
    assert_eq!(
        Swap::settle_swap(false, Ok(SwapResult { deposit: 10, withdraw: 0 })),
        Err(AmmError::InvalidAmount)
    );
    assert_eq!(
        Swap::settle_swap(true, Err(CurveError::SlippageLimitExceeded)),
        Err(AmmError::SlippageExceeded)
    );
}

#[test]
fn config_space() {
    assert_eq!(Config::INIT_SPACE, 118);
}

#[test]
fn test_swap() {
    // Pool seeded with equal reserves (1:1), fee 1 %; swap 1 000 X for at least 1 Y.
    let lp_seed: u64 = 1_000_000;
    let s = Swap { config: config(false), vault_x: lp_seed, vault_y: lp_seed, lp_supply: lp_seed };
    let swap_amount: u64 = 1_000;
    let q = s.swap(true, swap_amount, 1).unwrap();
    assert_eq!(
        q,
        SwapCurveQuery { x: lp_seed, y: lp_seed, l: lp_seed, fee: 100, pair: LiquidityPair::X, amount: swap_amount, minimum: 1 }
    );
    // A constant-product answer to that question: the fee stays in the pool,
    // the rest buys Y along x * y = k, rounded in the pool's favour.
    let k = q.x as u128 * q.y as u128;
    let effective = q.amount as u128 * (10_000 - q.fee as u128) / 10_000;
    let y_after = (k + (q.x as u128 + effective) - 1) / (q.x as u128 + effective);
    let answer = SwapResult { deposit: q.amount, withdraw: (q.y as u128 - y_after) as u64 };
    let plan = Swap::settle_swap(true, Ok(answer)).unwrap();
    assert!(plan.x_in);
    let vault_x_after = s.vault_x + plan.deposit;
    let vault_y_after = s.vault_y - plan.withdraw;
    assert_eq!(vault_x_after, s.vault_x + swap_amount, "vault_x must increase by the swapped-in amount");
    assert!(vault_y_after < s.vault_y, "vault_y must decrease after the swap");
    assert!(plan.withdraw > 0, "user must have received Y tokens from the swap");
    let k_after = vault_x_after as u128 * vault_y_after as u128;
    assert!(k_after >= k, "xy=k invariant: k must not decrease after a swap");
}
