//! The marketplace program's instructions, as decisions: each takes what the
//! instruction reads from its accounts and returns what it writes and pays,
//! or the error that refuses it.
use vstd::prelude::*;
use vstd::utf8::encode_utf8;
use crate::key::{Key, system_program_id};
use crate::marketplace::errors::MarketplaceError;
use crate::marketplace::fees::{fee_of, split_payment};
use crate::marketplace::state::{Listing, Marketplace, MAX_FEE_BPS, MAX_NAME_LEN, Offer};

verus! {

/// Reward tokens (base units, 6 decimals: one token) minted to the buyer of
/// every sale.
pub const SALE_REWARD: u64 = 1_000_000;

/// The bumps found for the accounts that `initialize` creates.
#[derive(Clone, Copy, Debug, PartialEq, Eq, Structural)]
pub struct InitializeBumps {
    pub marketplace: u8,
    pub treasury: u8,
    pub rewards_mint: u8,
}

/// What `initialize` reads: the admin who signs.
#[derive(Clone, Copy, Debug, PartialEq, Eq, Structural)]
pub struct Initialize {
    pub admin: Key,
}

impl Initialize {
    /// Creates a marketplace run by the admin that takes `fee` basis points of
    /// every sale: refused with `InvalidFee` above 10 000 basis points, then with
    /// `NameTooLong` where the name is longer than 32 bytes.
    pub fn initialize(&self, name: String, fee: u16, bumps: &InitializeBumps) -> (r: Result<
        Marketplace,
        MarketplaceError,
    >)
        ensures
            fee > MAX_FEE_BPS ==> (r matches Err(e) && e == MarketplaceError::InvalidFee),
            fee <= MAX_FEE_BPS && encode_utf8(name@).len() > MAX_NAME_LEN ==> (r matches Err(e) && e
                == MarketplaceError::NameTooLong),
            fee <= MAX_FEE_BPS && encode_utf8(name@).len() <= MAX_NAME_LEN ==> (r matches Ok(m) && m.admin
                == self.admin && m.fee == fee && m.bump == bumps.marketplace && m.treasury_bump == bumps.treasury
                && m.rewards_bump == bumps.rewards_mint && m.name@ == name@ && m.well_formed()),
    {
        if fee > MAX_FEE_BPS {
            return Err(MarketplaceError::InvalidFee);
        }
        if name.as_str().as_bytes().len() > MAX_NAME_LEN {
            return Err(MarketplaceError::NameTooLong);
        }
        Ok(
            Marketplace {
                admin: self.admin,
                fee,
                bump: bumps.marketplace,
                treasury_bump: bumps.treasury,
                rewards_bump: bumps.rewards_mint,
                name,
            },
        )
    }
}

/// The collection to name when transferring an asset: none where the
/// collection account given is the system program (the asset has no
/// collection).
pub open spec fn transfer_collection(collection: Key) -> Option<Key> {
    if collection == system_program_id() {
        None
    } else {
        Some(collection)
    }
}

/// The collection to name when transferring an asset (`transfer_collection`).
pub fn collection_for_transfer(collection: Key) -> (r: Option<Key>)
    ensures
        r == transfer_collection(collection),
{
    if collection.is_system_program() {
        None
    } else {
        Some(collection)
    }
}

/// What listing an asset writes: the listing account, and the collection to
/// name when the asset moves into the listing's custody.
#[derive(Clone, Copy, Debug, PartialEq, Eq, Structural)]
pub struct ListPlan {
    pub listing: Listing,
    pub collection: Option<Key>,
}

/// What `list` reads: the seller who signs, the asset and its collection
/// account (the system program where it has none).
#[derive(Clone, Copy, Debug, PartialEq, Eq, Structural)]
pub struct List {
    pub maker: Key,
    pub asset: Key,
    pub collection: Key,
}

impl List {
    /// Lists the asset at `price`, paid in SOL (`payment_mint` `None`) or in
    /// the given token.
    pub fn list(&self, price: u64, payment_mint: Option<Key>, bump: u8) -> (r: ListPlan)
        ensures
            r == (ListPlan {
                listing: Listing { maker: self.maker, asset: self.asset, price, payment_mint, bump },
                collection: transfer_collection(self.collection),
            }),
    {
        ListPlan {
            listing: Listing { maker: self.maker, asset: self.asset, price, payment_mint, bump },
            collection: collection_for_transfer(self.collection),
        }
    }
}

/// What a sale pays and moves: `maker_amount` to the seller and `fee` to the
/// treasury, the asset out of the listing's custody (naming `collection`),
/// and `reward` reward tokens minted to the buyer. The listing account is
/// closed to the seller.
#[derive(Clone, Copy, Debug, PartialEq, Eq, Structural)]
pub struct SalePlan {
    pub maker_amount: u64,
    pub fee: u64,
    pub collection: Option<Key>,
    pub reward: u64,
}

/// The plan of a sale of `amount` at `fee_bps` basis points.
pub open spec fn sale_plan(amount: u64, fee_bps: u16, collection: Key) -> SalePlan {
    SalePlan {
        maker_amount: (amount - fee_of(amount, fee_bps)) as u64,
        fee: fee_of(amount, fee_bps),
        collection: transfer_collection(collection),
        reward: SALE_REWARD,
    }
}

/// Whether the fee at `fee_bps` basis points fits in `amount` (`fee_of`):
/// always at 100 % or less.
pub fn fee_fits(amount: u64, fee_bps: u16) -> (r: bool)
    ensures
        r == (fee_of(amount, fee_bps) <= amount),
{
    assert((amount as u128) * (fee_bps as u128) <= 0xffff_ffff_ffff_ffff * 0xffff) by (nonlinear_arith);
    let fee: u64 = ((amount as u128) * (fee_bps as u128) / 10_000) as u64;
    fee <= amount
}

fn make_sale_plan(amount: u64, fee_bps: u16, collection: Key) -> (r: SalePlan)
    requires
        fee_of(amount, fee_bps) <= amount,
    ensures
        r == sale_plan(amount, fee_bps, collection),
        r.maker_amount + r.fee == amount,
{
    let (maker_amount, fee) = split_payment(amount, fee_bps);
    SalePlan { maker_amount, fee, collection: collection_for_transfer(collection), reward: SALE_REWARD }
}

/// The checks that the listing's account constraints make, in order: its
/// seller must be `maker` (`InvalidMaker`) and its asset `asset`
/// (`InvalidAsset`).
pub open spec fn listing_check(listing: Listing, maker: Key, asset: Key) -> Result<(), MarketplaceError> {
    if listing.maker != maker {
        Err(MarketplaceError::InvalidMaker)
    } else if listing.asset != asset {
        Err(MarketplaceError::InvalidAsset)
    } else {
        Ok(())
    }
}

fn check_listing(listing: &Listing, maker: Key, asset: Key) -> (r: Result<(), MarketplaceError>)
    ensures
        r == listing_check(*listing, maker, asset),
{
    if listing.maker != maker {
        Err(MarketplaceError::InvalidMaker)
    } else if listing.asset != asset {
        Err(MarketplaceError::InvalidAsset)
    } else {
        Ok(())
    }
}

/// The outcome of buying a listing with SOL: the listing checks, then
/// `WrongPaymentMethod` where the listing is priced in a token, else the sale
/// of the listing's price.
pub open spec fn buy_outcome(listing: Listing, fee_bps: u16, maker: Key, asset: Key, collection: Key) -> Result<
    SalePlan,
    MarketplaceError,
> {
    match listing_check(listing, maker, asset) {
        Err(e) => Err(e),
        Ok(_) => if listing.payment_mint is Some {
            Err(MarketplaceError::WrongPaymentMethod)
        } else {
            Ok(sale_plan(listing.price, fee_bps, collection))
        },
    }
}

/// What `buy` reads: the seller's account, the asset, its collection account,
/// the listing and the marketplace.
#[derive(Debug)]
pub struct Buy {
    pub maker: Key,
    pub asset: Key,
    pub collection: Key,
    pub listing: Listing,
    pub marketplace: Marketplace,
}

impl Buy {
    /// Whether the sale would pass its checks with a fee larger than the
    /// price (possible only above 100 %), where the sale cannot be split.
    pub fn fee_exceeds_price(&self) -> (r: bool)
        ensures
            r == !(listing_check(self.listing, self.maker, self.asset) is Ok && self.listing.payment_mint is None
                ==> fee_of(self.listing.price, self.marketplace.fee) <= self.listing.price),
    {
        self.listing.maker == self.maker && self.listing.asset == self.asset && self.listing.payment_mint.is_none()
            && !fee_fits(self.listing.price, self.marketplace.fee)
    }

    /// Buys the listed asset with SOL (`buy_outcome`).
    pub fn buy(&self) -> (r: Result<SalePlan, MarketplaceError>)
        requires
            listing_check(self.listing, self.maker, self.asset) is Ok && self.listing.payment_mint is None
                ==> fee_of(self.listing.price, self.marketplace.fee) <= self.listing.price,
        ensures
            r == buy_outcome(self.listing, self.marketplace.fee, self.maker, self.asset, self.collection),
    {
        check_listing(&self.listing, self.maker, self.asset)?;
        if self.listing.payment_mint.is_some() {
            return Err(MarketplaceError::WrongPaymentMethod);
        }
        Ok(make_sale_plan(self.listing.price, self.marketplace.fee, self.collection))
    }
}

/// A token account that a payment goes to: its owner and its mint.
#[derive(Clone, Copy, Debug, PartialEq, Eq, Structural)]
pub struct PaymentAccount {
    pub owner: Key,
    pub mint: Key,
}

/// The checks on the token accounts that a token payment goes to, in order:
/// the seller's must belong to `maker` (`InvalidMaker`) and hold `mint`
/// (`InvalidPaymentMint`), the treasury's must belong to `treasury`
/// (`InvalidTreasury`) and hold `mint` (`InvalidPaymentMint`).
pub open spec fn payment_accounts_check(
    maker: Key,
    treasury: Key,
    mint: Key,
    maker_account: PaymentAccount,
    treasury_account: PaymentAccount,
) -> Result<(), MarketplaceError> {
    if maker_account.owner != maker {
        Err(MarketplaceError::InvalidMaker)
    } else if maker_account.mint != mint {
        Err(MarketplaceError::InvalidPaymentMint)
    } else if treasury_account.owner != treasury {
        Err(MarketplaceError::InvalidTreasury)
    } else if treasury_account.mint != mint {
        Err(MarketplaceError::InvalidPaymentMint)
    } else {
        Ok(())
    }
}

fn check_payment_accounts(
    maker: Key,
    treasury: Key,
    mint: Key,
    maker_account: PaymentAccount,
    treasury_account: PaymentAccount,
) -> (r: Result<(), MarketplaceError>)
    ensures
        r == payment_accounts_check(maker, treasury, mint, maker_account, treasury_account),
{
    if maker_account.owner != maker {
        Err(MarketplaceError::InvalidMaker)
    } else if maker_account.mint != mint {
        Err(MarketplaceError::InvalidPaymentMint)
    } else if treasury_account.owner != treasury {
        Err(MarketplaceError::InvalidTreasury)
    } else if treasury_account.mint != mint {
        Err(MarketplaceError::InvalidPaymentMint)
    } else {
        Ok(())
    }
}

/// The checks that a token purchase makes before paying: the listing
/// checks, then `InvalidPaymentMint` unless the listing is priced in
/// `payment_mint`, then the payment accounts' checks.
pub open spec fn token_purchase_check(
    listing: Listing,
    maker: Key,
    asset: Key,
    payment_mint: Key,
    treasury: Key,
    maker_account: PaymentAccount,
    treasury_account: PaymentAccount,
) -> Result<(), MarketplaceError> {
    match listing_check(listing, maker, asset) {
        Err(e) => Err(e),
        Ok(_) => if listing.payment_mint != Some(payment_mint) {
            Err(MarketplaceError::InvalidPaymentMint)
        } else {
            payment_accounts_check(maker, treasury, payment_mint, maker_account, treasury_account)
        },
    }
}

/// The outcome of buying a listing with the token `payment_mint`, paying the
/// seller's token account `maker_account` and the treasury's
/// `treasury_account`: the checks (`token_purchase_check`), else the sale of
/// the listing's price.
pub open spec fn buy_with_token_outcome(
    listing: Listing,
    fee_bps: u16,
    maker: Key,
    asset: Key,
    payment_mint: Key,
    collection: Key,
    treasury: Key,
    maker_account: PaymentAccount,
    treasury_account: PaymentAccount,
) -> Result<SalePlan, MarketplaceError> {
    match token_purchase_check(listing, maker, asset, payment_mint, treasury, maker_account, treasury_account) {
        Err(e) => Err(e),
        Ok(_) => Ok(sale_plan(listing.price, fee_bps, collection)),
    }
}

/// What `buy_with_token` reads: the seller's account, the asset, its
/// collection account, the listing, the marketplace, the mint of the token
/// paid, the treasury, and the token accounts that the seller's part and the
/// fee go to.
#[derive(Debug)]
pub struct BuyWithToken {
    pub maker: Key,
    pub asset: Key,
    pub collection: Key,
    pub listing: Listing,
    pub marketplace: Marketplace,
    pub payment_mint: Key,
    pub treasury: Key,
    pub maker_payment_account: PaymentAccount,
    pub treasury_payment_account: PaymentAccount,
}

impl BuyWithToken {
    /// Whether the sale would pass its checks with a fee larger than the
    /// price (possible only above 100 %), where the sale cannot be split.
    pub fn fee_exceeds_price(&self) -> (r: bool)
        ensures
            r == !(token_purchase_check(
                self.listing,
                self.maker,
                self.asset,
                self.payment_mint,
                self.treasury,
                self.maker_payment_account,
                self.treasury_payment_account,
            ) is Ok ==> fee_of(self.listing.price, self.marketplace.fee) <= self.listing.price),
    {
        self.purchase_checks().is_ok() && !fee_fits(self.listing.price, self.marketplace.fee)
    }

    fn purchase_checks(&self) -> (r: Result<(), MarketplaceError>)
        ensures
            r == token_purchase_check(
                self.listing,
                self.maker,
                self.asset,
                self.payment_mint,
                self.treasury,
                self.maker_payment_account,
                self.treasury_payment_account,
            ),
    {
        check_listing(&self.listing, self.maker, self.asset)?;
        let priced_in_mint = match self.listing.payment_mint {
            Some(m) => m == self.payment_mint,
            None => false,
        };
        if !priced_in_mint {
            return Err(MarketplaceError::InvalidPaymentMint);
        }
        check_payment_accounts(
            self.maker,
            self.treasury,
            self.payment_mint,
            self.maker_payment_account,
            self.treasury_payment_account,
        )
    }

    /// Buys the listed asset with its payment token (`buy_with_token_outcome`).
    pub fn buy_with_token(&self) -> (r: Result<SalePlan, MarketplaceError>)
        requires
            token_purchase_check(
                self.listing,
                self.maker,
                self.asset,
                self.payment_mint,
                self.treasury,
                self.maker_payment_account,
                self.treasury_payment_account,
            ) is Ok ==> fee_of(self.listing.price, self.marketplace.fee) <= self.listing.price,
        ensures
            r == buy_with_token_outcome(
                self.listing,
                self.marketplace.fee,
                self.maker,
                self.asset,
                self.payment_mint,
                self.collection,
                self.treasury,
                self.maker_payment_account,
                self.treasury_payment_account,
            ),
    {
        self.purchase_checks()?;
        Ok(make_sale_plan(self.listing.price, self.marketplace.fee, self.collection))
    }
}

/// The bumps found for the accounts of a new offer.
#[derive(Clone, Copy, Debug, PartialEq, Eq, Structural)]
pub struct OfferBumps {
    pub offer: u8,
    pub offer_vault: u8,
}

/// The offer that `buyer` makes on `asset`, escrowing `amount` lamports:
/// refused with `WrongPaymentMethod` where the listing is priced in a token,
/// then with `InvalidOfferAmount` for an amount of zero.
pub open spec fn make_offer_outcome(listing: Listing, buyer: Key, asset: Key, amount: u64, bumps: OfferBumps) -> Result<
    Offer,
    MarketplaceError,
> {
    if listing.payment_mint is Some {
        Err(MarketplaceError::WrongPaymentMethod)
    } else if amount == 0 {
        Err(MarketplaceError::InvalidOfferAmount)
    } else {
        Ok(Offer { buyer, asset, amount, bump: bumps.offer, vault_bump: bumps.offer_vault })
    }
}

/// What `make_offer` reads: the buyer who signs, the asset and its listing.
#[derive(Clone, Copy, Debug, PartialEq, Eq, Structural)]
pub struct MakeOffer {
    pub buyer: Key,
    pub asset: Key,
    pub listing: Listing,
}

impl MakeOffer {
    /// Makes an offer (`make_offer_outcome`); the offer's `amount` lamports go
    /// from the buyer into the offer's vault.
    pub fn make_offer(&self, amount: u64, bumps: &OfferBumps) -> (r: Result<Offer, MarketplaceError>)
        ensures
            r == make_offer_outcome(self.listing, self.buyer, self.asset, amount, *bumps),
    {
        if self.listing.payment_mint.is_some() {
            return Err(MarketplaceError::WrongPaymentMethod);
        }
        if amount == 0 {
            return Err(MarketplaceError::InvalidOfferAmount);
        }
        Ok(Offer { buyer: self.buyer, asset: self.asset, amount, bump: bumps.offer, vault_bump: bumps.offer_vault })
    }
}

/// The checks that an offer's account constraints make, in order: its buyer
/// must be `buyer` (`InvalidBuyer`) and its asset `asset` (`InvalidAsset`).
pub open spec fn offer_check(offer: Offer, buyer: Key, asset: Key) -> Result<(), MarketplaceError> {
    if offer.buyer != buyer {
        Err(MarketplaceError::InvalidBuyer)
    } else if offer.asset != asset {
        Err(MarketplaceError::InvalidAsset)
    } else {
        Ok(())
    }
}

fn check_offer(offer: &Offer, buyer: Key, asset: Key) -> (r: Result<(), MarketplaceError>)
    ensures
        r == offer_check(*offer, buyer, asset),
{
    if offer.buyer != buyer {
        Err(MarketplaceError::InvalidBuyer)
    } else if offer.asset != asset {
        Err(MarketplaceError::InvalidAsset)
    } else {
        Ok(())
    }
}

/// The outcome of the seller accepting an offer: the listing checks, then the
/// offer checks, then the sale of the offer's amount, paid out of its vault;
/// the asset and the reward go to the buyer, the offer account is closed to
/// the buyer and the listing to the seller.
pub open spec fn accept_offer_outcome(
    listing: Listing,
    offer: Offer,
    fee_bps: u16,
    maker: Key,
    buyer: Key,
    asset: Key,
    collection: Key,
) -> Result<SalePlan, MarketplaceError> {
    match listing_check(listing, maker, asset) {
        Err(e) => Err(e),
        Ok(_) => match offer_check(offer, buyer, asset) {
            Err(e) => Err(e),
            Ok(_) => Ok(sale_plan(offer.amount, fee_bps, collection)),
        },
    }
}

/// What `accept_offer` reads: the seller who signs, the buyer's account, the
/// asset, its collection account, the listing, the offer and the marketplace.
#[derive(Debug)]
pub struct AcceptOffer {
    pub maker: Key,
    pub buyer: Key,
    pub asset: Key,
    pub collection: Key,
    pub listing: Listing,
    pub offer: Offer,
    pub marketplace: Marketplace,
}

impl AcceptOffer {
    /// Whether the sale would pass its checks with a fee larger than the
    /// offer (possible only above 100 %), where the sale cannot be split.
    pub fn fee_exceeds_price(&self) -> (r: bool)
        ensures
            r == !(listing_check(self.listing, self.maker, self.asset) is Ok && offer_check(
                self.offer,
                self.buyer,
                self.asset,
            ) is Ok ==> fee_of(self.offer.amount, self.marketplace.fee) <= self.offer.amount),
    {
        self.listing.maker == self.maker && self.listing.asset == self.asset && self.offer.buyer == self.buyer
            && self.offer.asset == self.asset && !fee_fits(self.offer.amount, self.marketplace.fee)
    }

    /// Accepts the offer (`accept_offer_outcome`).
    pub fn accept_offer(&self) -> (r: Result<SalePlan, MarketplaceError>)
        requires
            listing_check(self.listing, self.maker, self.asset) is Ok && offer_check(
                self.offer,
                self.buyer,
                self.asset,
            ) is Ok ==> fee_of(self.offer.amount, self.marketplace.fee) <= self.offer.amount,
        ensures
            r == accept_offer_outcome(
                self.listing,
                self.offer,
                self.marketplace.fee,
                self.maker,
                self.buyer,
                self.asset,
                self.collection,
            ),
    {
        check_listing(&self.listing, self.maker, self.asset)?;
        check_offer(&self.offer, self.buyer, self.asset)?;
        Ok(make_sale_plan(self.offer.amount, self.marketplace.fee, self.collection))
    }
}

/// The lamports refunded when `buyer` cancels an offer whose vault holds
/// `vault_lamports`: all of them, after the offer checks; the offer account
/// is closed to the buyer.
pub open spec fn cancel_offer_outcome(offer: Offer, buyer: Key, asset: Key, vault_lamports: u64) -> Result<
    u64,
    MarketplaceError,
> {
    match offer_check(offer, buyer, asset) {
        Err(e) => Err(e),
        Ok(_) => Ok(vault_lamports),
    }
}

/// What `cancel_offer` reads: the buyer who signs, the asset, the offer and
/// the lamports its vault holds.
#[derive(Clone, Copy, Debug, PartialEq, Eq, Structural)]
pub struct CancelOffer {
    pub buyer: Key,
    pub asset: Key,
    pub offer: Offer,
    pub vault_lamports: u64,
}

impl CancelOffer {
    /// Cancels the offer (`cancel_offer_outcome`): returns the lamports
    /// refunded to the buyer.
    pub fn cancel_offer(&self) -> (r: Result<u64, MarketplaceError>)
        ensures
            r == cancel_offer_outcome(self.offer, self.buyer, self.asset, self.vault_lamports),
    {
        check_offer(&self.offer, self.buyer, self.asset)?;
        Ok(self.vault_lamports)
    }
}

} // verus!
