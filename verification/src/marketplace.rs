use vstd::prelude::*;

verus! {

use crate::account::AccountId;
use crate::yield_math::fits_i64;

/// Seconds a listing stays open to buyers after it is created.
pub const LISTING_LIFETIME: i64 = 7 * 24 * 60 * 60;

/// Reasons a marketplace instruction refuses to act. An instruction that
/// errs leaves every account exactly as it found it.
#[derive(Clone, Copy, PartialEq, Eq, Structural, Debug)]
pub enum ErrorCode {
    /// The listing has already been bought or cancelled.
    ListingNotActive,
    /// The buyer's payment balance does not cover the price.
    InsufficientPayment,
    /// The seller holds fewer yield tokens than the listing offers.
    InsufficientFunds,
    /// The offered amount is zero.
    InvalidAmount,
    /// The asked price is zero.
    InvalidPrice,
    /// The buyer is the seller.
    CannotBuyOwnListing,
    /// The listing is older than `LISTING_LIFETIME`.
    ListingExpired,
}

/// An offer of yield tokens, backed by the same number of tokens held in
/// escrow until the listing is bought or cancelled.
#[derive(Clone, Copy, PartialEq, Eq, Structural, Debug)]
pub struct Listing {
    pub seller: AccountId,
    /// Mint of the yield token on offer.
    pub yt_mint: AccountId,
    /// Yield tokens on offer, all held in escrow.
    pub amount: u64,
    /// Asked payment, in payment-token units.
    pub price: u64,
    pub active: bool,
    pub created_at: i64,
}

impl Listing {
    /// What `list_yt` guarantees of every listing it writes: something is
    /// offered and something is asked.
    pub open spec fn wf(self) -> bool {
        self.amount > 0 && self.price > 0
    }
}

/// Token movements that complete a purchase.
#[derive(Clone, Copy, PartialEq, Eq, Structural, Debug)]
pub struct BuyEffects {
    /// Yield tokens released from escrow to the buyer.
    pub yt_to_buyer: u64,
    /// Payment moved from the buyer to the seller.
    pub payment_to_seller: u64,
}

/// Opens a listing of `amount` yield tokens at `price`. On success the host
/// moves the offered tokens from the seller into escrow.
pub fn list_yt(
    seller: AccountId,
    yt_mint: AccountId,
    seller_yt_balance: u64,
    price: u64,
    amount: u64,
    now: i64,
) -> (r: Result<Listing, ErrorCode>)
    ensures
        amount == 0 ==> r == Err::<Listing, ErrorCode>(ErrorCode::InvalidAmount),
        amount > 0 && price == 0 ==> r == Err::<Listing, ErrorCode>(ErrorCode::InvalidPrice),
        amount > 0 && price > 0 && seller_yt_balance < amount ==> r == Err::<Listing, ErrorCode>(
            ErrorCode::InsufficientFunds,
        ),
        amount > 0 && price > 0 && seller_yt_balance >= amount ==> (r matches Ok(l)
            && l == (Listing { seller, yt_mint, amount, price, active: true, created_at: now })),
        r matches Ok(l) ==> l.wf(),
{
    if amount == 0 {
        return Err(ErrorCode::InvalidAmount);
    }
    if price == 0 {
        return Err(ErrorCode::InvalidPrice);
    }
    if seller_yt_balance < amount {
        return Err(ErrorCode::InsufficientFunds);
    }
    Ok(Listing { seller, yt_mint, amount, price, active: true, created_at: now })
}

/// Buys an active, unexpired listing: closes it and asks the host to release
/// the escrowed yield tokens to the buyer and move the payment to the seller.
pub fn buy_yt(
    listing: &mut Listing,
    buyer: AccountId,
    buyer_balance: u64,
    now: i64,
) -> (r: Result<BuyEffects, ErrorCode>)
    requires
        (old(listing).active && buyer_balance >= old(listing).price && buyer != old(
            listing,
        ).seller) ==> fits_i64(now - old(listing).created_at),
    ensures
        r is Err ==> *final(listing) == *old(listing),
        !old(listing).active ==> r == Err::<BuyEffects, ErrorCode>(ErrorCode::ListingNotActive),
        old(listing).active && buyer_balance < old(listing).price ==> r == Err::<
            BuyEffects,
            ErrorCode,
        >(ErrorCode::InsufficientPayment),
        old(listing).active && buyer_balance >= old(listing).price && buyer == old(listing).seller
            ==> r == Err::<BuyEffects, ErrorCode>(ErrorCode::CannotBuyOwnListing),
        old(listing).active && buyer_balance >= old(listing).price && buyer != old(listing).seller
            && now - old(listing).created_at > LISTING_LIFETIME ==> r == Err::<
            BuyEffects,
            ErrorCode,
        >(ErrorCode::ListingExpired),
        old(listing).active && buyer_balance >= old(listing).price && buyer != old(listing).seller
            && now - old(listing).created_at <= LISTING_LIFETIME ==> (r matches Ok(e)
            && e == (BuyEffects {
                yt_to_buyer: old(listing).amount,
                payment_to_seller: old(listing).price,
            })
            && *final(listing) == (Listing { active: false, ..*old(listing) })),
{
    if !listing.active {
        return Err(ErrorCode::ListingNotActive);
    }
    if buyer_balance < listing.price {
        return Err(ErrorCode::InsufficientPayment);
    }
    if buyer == listing.seller {
        return Err(ErrorCode::CannotBuyOwnListing);
    }
    if now - listing.created_at > LISTING_LIFETIME {
        return Err(ErrorCode::ListingExpired);
    }
    listing.active = false;
    Ok(BuyEffects { yt_to_buyer: listing.amount, payment_to_seller: listing.price })
}

/// Cancels an active listing: closes it and asks the host to return the
/// escrowed yield tokens to the seller. The host only runs this for the
/// listing's own seller.
pub fn cancel_listing(listing: &mut Listing) -> (r: Result<u64, ErrorCode>)
    ensures
        !old(listing).active ==> r == Err::<u64, ErrorCode>(ErrorCode::ListingNotActive)
            && *final(listing) == *old(listing),
        old(listing).active ==> r == Ok::<u64, ErrorCode>(old(listing).amount) && *final(listing)
            == (Listing { active: false, ..*old(listing) }),
{
    if !listing.active {
        return Err(ErrorCode::ListingNotActive);
    }
    listing.active = false;
    Ok(listing.amount)
}

} // verus!
