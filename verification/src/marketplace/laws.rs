//! Laws of the marketplace: what sales pay out and which payment path
//! accepts a listing.
use vstd::prelude::*;
use crate::key::Key;
use crate::marketplace::errors::MarketplaceError;
use crate::marketplace::fees::lemma_fee_at_most_amount;
use crate::marketplace::instructions::{
    OfferBumps, PaymentAccount, SalePlan, accept_offer_outcome, buy_outcome, buy_with_token_outcome, cancel_offer_outcome,
    listing_check, make_offer_outcome, sale_plan,
};
use crate::marketplace::state::{Listing, MAX_FEE_BPS, Offer};

verus! {

/// A sale splits the amount paid between the seller and the treasury without
/// loss: the fee is `amount * fee_bps / 10_000` rounded down, at most the
/// amount, and the seller receives the rest.
pub proof fn lemma_sale_conserves(amount: u64, fee_bps: u16, collection: Key)
    requires
        fee_bps <= MAX_FEE_BPS,
    ensures
        sale_plan(amount, fee_bps, collection).maker_amount + sale_plan(amount, fee_bps, collection).fee == amount,
        sale_plan(amount, fee_bps, collection).fee == amount * fee_bps / 10_000,
        sale_plan(amount, fee_bps, collection).fee <= amount,
        fee_bps == 0 ==> sale_plan(amount, fee_bps, collection).fee == 0,
        fee_bps == MAX_FEE_BPS ==> sale_plan(amount, fee_bps, collection).maker_amount == 0,
{
    lemma_fee_at_most_amount(amount, fee_bps);
    assert(fee_bps == 0 ==> amount * fee_bps == 0) by (nonlinear_arith);
    assert(fee_bps == 10_000 ==> amount * fee_bps / 10_000 == amount) by (nonlinear_arith);
}

/// Accepting an offer pays out exactly the lamports that making it escrowed:
/// the seller's part and the fee add up to the offer's amount.
pub proof fn lemma_accepted_offer_pays_escrow(
    listing: Listing,
    buyer: Key,
    asset: Key,
    amount: u64,
    bumps: OfferBumps,
    fee_bps: u16,
    collection: Key,
)
    requires
        make_offer_outcome(listing, buyer, asset, amount, bumps) is Ok,
        listing.asset == asset,
        fee_bps <= MAX_FEE_BPS,
    ensures
        accept_offer_outcome(
            listing,
            make_offer_outcome(listing, buyer, asset, amount, bumps)->Ok_0,
            fee_bps,
            listing.maker,
            buyer,
            asset,
            collection,
        ) matches Ok(p) && p.maker_amount + p.fee == amount,
{
    lemma_sale_conserves(amount, fee_bps, collection);
}

/// The buyer of an offer can always cancel it, and gets back everything its
/// vault holds.
pub proof fn lemma_cancel_refunds_vault(offer: Offer, vault_lamports: u64)
    ensures
        cancel_offer_outcome(offer, offer.buyer, offer.asset, vault_lamports) == Ok::<u64, MarketplaceError>(
            vault_lamports,
        ),
{
}

/// A listing whose seller and asset match is accepted by exactly one payment
/// path: by `buy` where it is priced in SOL, by `buy_with_token` with its own
/// mint (paying the seller's and the treasury's accounts of that mint) where
/// it is priced in a token; the other path refuses it.
pub proof fn lemma_one_payment_path(
    listing: Listing,
    fee_bps: u16,
    payment_mint: Key,
    collection: Key,
    treasury: Key,
)
    requires
        listing_check(listing, listing.maker, listing.asset) is Ok,
    ensures
        ({
            let maker_account = PaymentAccount { owner: listing.maker, mint: payment_mint };
            let treasury_account = PaymentAccount { owner: treasury, mint: payment_mint };
            &&& listing.payment_mint is None ==> buy_outcome(listing, fee_bps, listing.maker, listing.asset, collection)
                == Ok::<SalePlan, MarketplaceError>(sale_plan(listing.price, fee_bps, collection))
                && buy_with_token_outcome(
                listing,
                fee_bps,
                listing.maker,
                listing.asset,
                payment_mint,
                collection,
                treasury,
                maker_account,
                treasury_account,
            ) == Err::<SalePlan, MarketplaceError>(MarketplaceError::InvalidPaymentMint)
            &&& listing.payment_mint == Some(payment_mint) ==> buy_outcome(
                listing,
                fee_bps,
                listing.maker,
                listing.asset,
                collection,
            ) == Err::<SalePlan, MarketplaceError>(MarketplaceError::WrongPaymentMethod) && buy_with_token_outcome(
                listing,
                fee_bps,
                listing.maker,
                listing.asset,
                payment_mint,
                collection,
                treasury,
                maker_account,
                treasury_account,
            ) == Ok::<SalePlan, MarketplaceError>(sale_plan(listing.price, fee_bps, collection))
        }),
{
}

/// A token purchase that goes through pays the seller's part into a token
/// account of the seller and the fee into one of the treasury, both of the
/// listing's mint.
pub proof fn lemma_token_payment_reaches_owners(
    listing: Listing,
    fee_bps: u16,
    maker: Key,
    asset: Key,
    payment_mint: Key,
    collection: Key,
    treasury: Key,
    maker_account: PaymentAccount,
    treasury_account: PaymentAccount,
)
    ensures
        buy_with_token_outcome(
            listing,
            fee_bps,
            maker,
            asset,
            payment_mint,
            collection,
            treasury,
            maker_account,
            treasury_account,
        ) is Ok ==> maker_account.owner == listing.maker && treasury_account.owner == treasury
            && maker_account.mint == payment_mint && treasury_account.mint == payment_mint
            && listing.payment_mint == Some(payment_mint),
{
}

/// Whether `p` is a sale of `amount` at `fee_bps` basis points: the seller
/// and the treasury share the amount exactly, the treasury's part being
/// `amount * fee_bps / 10_000` rounded down; the asset moves naming its
/// collection, or no collection where the collection account given is the
/// system program (the address of all-zero bytes); and one reward token,
/// 1_000_000 base units, is minted to the buyer whatever the fee.
pub open spec fn pays_sale(p: SalePlan, amount: u64, fee_bps: u16, collection: Key) -> bool {
    &&& p.maker_amount + p.fee == amount
    &&& p.fee * 10_000 <= amount * fee_bps < (p.fee + 1) * 10_000
    &&& p.collection == (if collection == Key(0, 0, 0, 0) {
        None
    } else {
        Some(collection)
    })
    &&& p.reward == 1_000_000
}

/// The plan of every sale at a fee of at most 100 % pays the sale.
pub proof fn lemma_sale_plan_pays(amount: u64, fee_bps: u16, collection: Key)
    requires
        fee_bps <= 10_000,
    ensures
        pays_sale(sale_plan(amount, fee_bps, collection), amount, fee_bps, collection),
{
    lemma_fee_at_most_amount(amount, fee_bps);
    let f = amount * fee_bps / 10_000;
    assert(f * 10_000 <= amount * fee_bps < (f + 1) * 10_000) by (nonlinear_arith)
        requires
            f == amount * fee_bps / 10_000,
            amount * fee_bps >= 0,
    ;
}

/// A purchase with SOL that goes through pays the sale of the listing's
/// price.
pub proof fn lemma_buy_pays_price(listing: Listing, fee_bps: u16, maker: Key, asset: Key, collection: Key)
    requires
        fee_bps <= 10_000,
    ensures
        buy_outcome(listing, fee_bps, maker, asset, collection) matches Ok(p) ==> pays_sale(
            p,
            listing.price,
            fee_bps,
            collection,
        ),
{
    lemma_sale_plan_pays(listing.price, fee_bps, collection);
}

/// A purchase with a token that goes through pays the sale of the listing's
/// price.
pub proof fn lemma_buy_with_token_pays_price(
    listing: Listing,
    fee_bps: u16,
    maker: Key,
    asset: Key,
    payment_mint: Key,
    collection: Key,
    treasury: Key,
    maker_account: PaymentAccount,
    treasury_account: PaymentAccount,
)
    requires
        fee_bps <= 10_000,
    ensures
        buy_with_token_outcome(
            listing,
            fee_bps,
            maker,
            asset,
            payment_mint,
            collection,
            treasury,
            maker_account,
            treasury_account,
        ) matches Ok(p) ==> pays_sale(p, listing.price, fee_bps, collection),
{
    lemma_sale_plan_pays(listing.price, fee_bps, collection);
}

/// An accepted offer pays the sale of the offer's amount (not the listing's
/// price).
pub proof fn lemma_accepted_offer_pays_amount(
    listing: Listing,
    offer: Offer,
    fee_bps: u16,
    maker: Key,
    buyer: Key,
    asset: Key,
    collection: Key,
)
    requires
        fee_bps <= 10_000,
    ensures
        accept_offer_outcome(listing, offer, fee_bps, maker, buyer, asset, collection) matches Ok(p) ==> pays_sale(
            p,
            offer.amount,
            fee_bps,
            collection,
        ),
{
    lemma_sale_plan_pays(offer.amount, fee_bps, collection);
}

} // verus!
