use solana_programs::key::Key;
use solana_programs::marketplace::errors::MarketplaceError;
use solana_programs::marketplace::fees::split_payment;
use solana_programs::marketplace::instructions::fee_fits;
use solana_programs::marketplace::instructions::{
    AcceptOffer, Buy, BuyWithToken, CancelOffer, Initialize, InitializeBumps, List, ListPlan, MakeOffer,
    OfferBumps, PaymentAccount, SalePlan, SALE_REWARD,
};
use solana_programs::marketplace::state::{Listing, Marketplace, Offer};

const MAKER: Key = Key(1, 1, 1, 1);
const BUYER: Key = Key(2, 2, 2, 2);
const ASSET: Key = Key(3, 3, 3, 3);
const COLLECTION: Key = Key(4, 4, 4, 4);
const MINT: Key = Key(5, 5, 5, 5);
const SYSTEM: Key = Key(0, 0, 0, 0);
const TREASURY: Key = Key(6, 6, 6, 6);

fn bumps() -> InitializeBumps {
    InitializeBumps { marketplace: 255, treasury: 254, rewards_mint: 253 }
}

fn marketplace(fee: u16) -> Marketplace {
    Initialize { admin: Key(9, 9, 9, 9) }.initialize("market".to_string(), fee, &bumps()).unwrap()
}

fn sol_listing(price: u64) -> Listing {
    List { maker: MAKER, asset: ASSET, collection: COLLECTION }.list(price, None, 250).listing
}

#[test]
fn initialize_accepts_valid_marketplace() {
    let m = marketplace(250);
    assert_eq!(m.admin, Key(9, 9, 9, 9));
    assert_eq!(m.fee, 250);
    assert_eq!(m.name, "market");
    assert_eq!((m.bump, m.treasury_bump, m.rewards_bump), (255, 254, 253));
}

#[test]
fn initialize_refusals() {
    let init = Initialize { admin: MAKER };
    assert_eq!(init.initialize("m".to_string(), 10_001, &bumps()).unwrap_err(), MarketplaceError::InvalidFee);
    assert!(init.initialize("m".to_string(), 10_000, &bumps()).is_ok());
    let long = "a".repeat(33);
    assert_eq!(init.initialize(long.clone(), 100, &bumps()).unwrap_err(), MarketplaceError::NameTooLong);
    // The fee is checked first.
    assert_eq!(init.initialize(long, 20_000, &bumps()).unwrap_err(), MarketplaceError::InvalidFee);
    assert!(init.initialize("a".repeat(32), 100, &bumps()).is_ok());
    // The limit is in bytes: 17 two-byte characters are 34 bytes.
    assert_eq!(init.initialize("é".repeat(17), 100, &bumps()).unwrap_err(), MarketplaceError::NameTooLong);
}

#[test]
fn fee_split() {
    assert_eq!(split_payment(1_000_000, 250), (975_000, 25_000));
    assert_eq!(split_payment(999, 250), (975, 24));
    assert_eq!(split_payment(u64::MAX, 10_000), (0, u64::MAX));
    assert_eq!(split_payment(u64::MAX, 0), (u64::MAX, 0));
    // Above 100 % the fee fits only in small amounts.
    assert_eq!(split_payment(1, 19_999), (0, 1));
    assert!(fee_fits(1, 19_999));
    assert!(!fee_fits(1, 20_000));
    assert!(fee_fits(0, u16::MAX));
    assert!(fee_fits(u64::MAX, 10_000));
}

#[test]
fn fee_above_price_is_detected() {
    let over = Marketplace { admin: MAKER, fee: 20_000, bump: 0, treasury_bump: 0, rewards_bump: 0, name: String::new() };
    let b = Buy { maker: MAKER, asset: ASSET, collection: SYSTEM, listing: sol_listing(10), marketplace: over };
    assert!(b.fee_exceeds_price());
    // Where a check refuses the sale first, nothing overflows.
    let refused = Buy { maker: BUYER, ..b };
    assert!(!refused.fee_exceeds_price());
    assert_eq!(refused.buy(), Err(MarketplaceError::InvalidMaker));
    let fair = Buy { maker: MAKER, asset: ASSET, collection: SYSTEM, listing: sol_listing(10), marketplace: marketplace(10_000) };
    assert!(!fair.fee_exceeds_price());
    assert_eq!(fair.buy().unwrap().maker_amount, 0);
}

#[test]
fn list_records_listing() {
    let plan = List { maker: MAKER, asset: ASSET, collection: COLLECTION }.list(42, Some(MINT), 7);
    assert_eq!(
        plan,
        ListPlan {
            listing: Listing { maker: MAKER, asset: ASSET, price: 42, payment_mint: Some(MINT), bump: 7 },
            collection: Some(COLLECTION),
        }
    );
    let plan = List { maker: MAKER, asset: ASSET, collection: SYSTEM }.list(42, None, 7);
    assert_eq!(plan.collection, None);
}

#[test]
fn buy_with_sol() {
    let b = Buy {
        maker: MAKER,
        asset: ASSET,
        collection: COLLECTION,
        listing: sol_listing(1_000_000),
        marketplace: marketplace(250),
    };
    assert_eq!(
        b.buy(),
        Ok(SalePlan { maker_amount: 975_000, fee: 25_000, collection: Some(COLLECTION), reward: SALE_REWARD })
    );
    assert_eq!(SALE_REWARD, 1_000_000);
}

#[test]
fn buy_refusals() {
    let wrong_maker =
        Buy { maker: BUYER, asset: ASSET, collection: SYSTEM, listing: sol_listing(10), marketplace: marketplace(0) };
    assert_eq!(wrong_maker.buy(), Err(MarketplaceError::InvalidMaker));
    let wrong_asset =
        Buy { maker: MAKER, asset: BUYER, collection: SYSTEM, listing: sol_listing(10), marketplace: marketplace(0) };
    assert_eq!(wrong_asset.buy(), Err(MarketplaceError::InvalidAsset));
    let mut token_listing = sol_listing(10);
    token_listing.payment_mint = Some(MINT);
    let wrong_method =
        Buy { maker: MAKER, asset: ASSET, collection: SYSTEM, listing: token_listing, marketplace: marketplace(0) };
    assert_eq!(wrong_method.buy(), Err(MarketplaceError::WrongPaymentMethod));
}

fn token_purchase(listing: Listing, payment_mint: Key) -> BuyWithToken {
    BuyWithToken {
        maker: MAKER,
        asset: ASSET,
        collection: SYSTEM,
        listing,
        marketplace: marketplace(1_000),
        payment_mint,
        treasury: TREASURY,
        maker_payment_account: PaymentAccount { owner: MAKER, mint: MINT },
        treasury_payment_account: PaymentAccount { owner: TREASURY, mint: MINT },
    }
}

#[test]
fn buy_with_token_paths() {
    let listing = List { maker: MAKER, asset: ASSET, collection: SYSTEM }.list(500, Some(MINT), 1).listing;
    let b = token_purchase(listing, MINT);
    assert!(!b.fee_exceeds_price());
    assert_eq!(b.buy_with_token(), Ok(SalePlan { maker_amount: 450, fee: 50, collection: None, reward: 1_000_000 }));
    assert_eq!(token_purchase(listing, BUYER).buy_with_token(), Err(MarketplaceError::InvalidPaymentMint));
    assert_eq!(token_purchase(sol_listing(500), MINT).buy_with_token(), Err(MarketplaceError::InvalidPaymentMint));
}

#[test]
fn buy_with_token_pays_the_right_accounts() {
    let listing = List { maker: MAKER, asset: ASSET, collection: SYSTEM }.list(500, Some(MINT), 1).listing;
    let mut b = token_purchase(listing, MINT);
    b.maker_payment_account.owner = BUYER;
    assert_eq!(b.buy_with_token(), Err(MarketplaceError::InvalidMaker));
    let mut b = token_purchase(listing, MINT);
    b.maker_payment_account.mint = BUYER;
    assert_eq!(b.buy_with_token(), Err(MarketplaceError::InvalidPaymentMint));
    let mut b = token_purchase(listing, MINT);
    b.treasury_payment_account.owner = BUYER;
    assert_eq!(b.buy_with_token(), Err(MarketplaceError::InvalidTreasury));
    let mut b = token_purchase(listing, MINT);
    b.treasury_payment_account.mint = BUYER;
    assert_eq!(b.buy_with_token(), Err(MarketplaceError::InvalidPaymentMint));
    // The listing is checked first.
    let mut b = token_purchase(listing, MINT);
    b.maker = BUYER;
    b.treasury_payment_account.owner = BUYER;
    assert_eq!(b.buy_with_token(), Err(MarketplaceError::InvalidMaker));
    let mut b = token_purchase(listing, MINT);
    b.asset = BUYER;
    assert_eq!(b.buy_with_token(), Err(MarketplaceError::InvalidAsset));
}

#[test]
fn offers() {
    let offer_bumps = OfferBumps { offer: 11, offer_vault: 12 };
    let make = MakeOffer { buyer: BUYER, asset: ASSET, listing: sol_listing(1_000) };
    let offer = make.make_offer(800, &offer_bumps).unwrap();
    assert_eq!(offer, Offer { buyer: BUYER, asset: ASSET, amount: 800, bump: 11, vault_bump: 12 });
    assert_eq!(make.make_offer(0, &offer_bumps), Err(MarketplaceError::InvalidOfferAmount));
    let mut token_listing = sol_listing(1_000);
    token_listing.payment_mint = Some(MINT);
    let on_token = MakeOffer { buyer: BUYER, asset: ASSET, listing: token_listing };
    assert_eq!(on_token.make_offer(0, &offer_bumps), Err(MarketplaceError::WrongPaymentMethod));

    let accept = AcceptOffer {
        maker: MAKER,
        buyer: BUYER,
        asset: ASSET,
        collection: COLLECTION,
        listing: sol_listing(1_000),
        offer,
        marketplace: marketplace(250),
    };
    assert_eq!(
        accept.accept_offer(),
        Ok(SalePlan { maker_amount: 780, fee: 20, collection: Some(COLLECTION), reward: 1_000_000 })
    );
    let wrong_buyer = AcceptOffer { buyer: MAKER, ..accept };
    assert_eq!(wrong_buyer.accept_offer(), Err(MarketplaceError::InvalidBuyer));

    let cancel = CancelOffer { buyer: BUYER, asset: ASSET, offer, vault_lamports: 800 };
    assert_eq!(cancel.cancel_offer(), Ok(800));
    let stranger = CancelOffer { buyer: MAKER, ..cancel };
    assert_eq!(stranger.cancel_offer(), Err(MarketplaceError::InvalidBuyer));
    let other_asset = CancelOffer { asset: MAKER, ..cancel };
    assert_eq!(other_asset.cancel_offer(), Err(MarketplaceError::InvalidAsset));
}

#[test]
fn account_spaces() {
    assert_eq!(Listing::INIT_SPACE, 106);
    assert_eq!(Offer::INIT_SPACE, 74);
}
