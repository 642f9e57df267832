//! The marketplace fee taken out of every payment.
use vstd::prelude::*;
use crate::marketplace::state::MAX_FEE_BPS;

verus! {

/// The fee on `amount` at `fee_bps` basis points: `amount * fee_bps / 10_000`
/// rounded down, taken modulo 2^64 (it only exceeds `amount` above 100 %).
pub open spec fn fee_of(amount: u64, fee_bps: u16) -> u64 {
    (amount * fee_bps / 10_000) as u64
}

/// At most 100 %, the fee is exact and never exceeds the amount.
pub proof fn lemma_fee_at_most_amount(amount: u64, fee_bps: u16)
    requires
        fee_bps <= MAX_FEE_BPS,
    ensures
        fee_of(amount, fee_bps) == amount * fee_bps / 10_000,
        fee_of(amount, fee_bps) <= amount,
{
    assert(amount * fee_bps <= amount * 10_000) by (nonlinear_arith)
        requires
            fee_bps <= 10_000,
    ;
    assert((amount * fee_bps) / 10_000 <= (amount * 10_000) / 10_000) by (nonlinear_arith)
        requires
            amount * fee_bps <= amount * 10_000,
            0 <= amount * fee_bps,
    ;
    assert((amount * 10_000) / 10_000 == amount) by (nonlinear_arith);
}

/// Splits a payment of `amount` into what the seller receives and the fee
/// (`fee_of`); the two parts add up to `amount`. A fee above the amount
/// (possible only above 100 %) has no split.
pub fn split_payment(amount: u64, fee_bps: u16) -> (r: (u64, u64))
    requires
        fee_of(amount, fee_bps) <= amount,
    ensures
        r.1 == fee_of(amount, fee_bps),
        r.0 + r.1 == amount,
{
    assert((amount as u128) * (fee_bps as u128) <= 0xffff_ffff_ffff_ffff * 0xffff) by (nonlinear_arith);
    let fee: u64 = ((amount as u128) * (fee_bps as u128) / 10_000) as u64;
    (amount - fee, fee)
}

} // verus!
