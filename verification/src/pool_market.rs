use vstd::prelude::*;

verus! {

use crate::account::AccountId;
use crate::lending::UserDeposit;
use crate::yield_math::{fits_i64, wrap_to_u64, yield_increment, RATE_SCALE, YEAR_SECONDS};

/// Seconds a listing stays open to buyers after it is created.
pub const LISTING_LIFETIME: i64 = 7 * 24 * 60 * 60;

/// Lower bound on a strategy's reward rate, in `RATE_SCALE` units per year.
pub const MIN_REWARD_APY: u64 = 100;

/// Upper bound on a strategy's reward rate, in `RATE_SCALE` units per year.
pub const MAX_REWARD_APY: u64 = 100_000;

/// Reasons a pool-market instruction refuses to act. An instruction that
/// errs leaves every account exactly as it found it.
#[derive(Clone, Copy, PartialEq, Eq, Structural, Debug)]
pub enum ErrorCode {
    /// The listing has already been bought or cancelled.
    ListingNotActive,
    /// The buyer's payment balance does not cover the price.
    InsufficientPayment,
    /// The reward rate lies above the accepted bound.
    InvalidAPY,
    /// The deposit or the seller's balance does not cover the amount.
    InsufficientFunds,
    /// The offered amount is zero.
    InvalidAmount,
    /// The asked price is zero.
    InvalidPrice,
    /// The buyer is the seller.
    CannotBuyOwnListing,
    /// The listing is older than `LISTING_LIFETIME`.
    ListingExpired,
}

/// An offer of yield tokens, backed by the same number of tokens held in
/// escrow until the listing is bought or cancelled.
#[derive(Clone, Copy, PartialEq, Eq, Structural, Debug)]
pub struct Listing {
    pub seller: AccountId,
    /// Mint of the yield token on offer.
    pub yt_mint: AccountId,
    /// Yield tokens on offer, all held in escrow.
    pub amount: u64,
    /// Asked payment, in payment-token units.
    pub price: u64,
    pub active: bool,
    pub created_at: i64,
}

impl Listing {
    /// What `list_yt` guarantees of every listing it writes: something is
    /// offered and something is asked.
    pub open spec fn wf(self) -> bool {
        self.amount > 0 && self.price > 0
    }
}

/// A yield strategy of the pool market: one token, one reward rate.
#[derive(Clone, Copy, PartialEq, Eq, Structural, Debug)]
pub struct Strategy {
    pub token_address: AccountId,
    /// Reward rate in `RATE_SCALE` units per year.
    pub reward_apy: u64,
    pub created_at: i64,
}

/// Token movements that complete a purchase.
#[derive(Clone, Copy, PartialEq, Eq, Structural, Debug)]
pub struct BuyEffects {
    /// Yield tokens released from escrow to the buyer.
    pub yt_to_buyer: u64,
    /// Payment moved from the buyer to the seller.
    pub payment_to_seller: u64,
}

/// Token movements that complete a redemption.
#[derive(Clone, Copy, PartialEq, Eq, Structural, Debug)]
pub struct RedeemEffects {
    /// Yield tokens moved from the vault back to the user.
    pub yt_to_user: u64,
    /// Reward paid from the vault to the user.
    pub reward_to_user: u64,
}

/// Opens a listing of `amount` yield tokens at `price`. On success the host
/// moves the offered tokens from the seller into escrow.
pub fn list_yt(
    seller: AccountId,
    yt_mint: AccountId,
    seller_yt_balance: u64,
    price: u64,
    amount: u64,
    now: i64,
) -> (r: Result<Listing, ErrorCode>)
    ensures
        amount == 0 ==> r == Err::<Listing, ErrorCode>(ErrorCode::InvalidAmount),
        amount > 0 && price == 0 ==> r == Err::<Listing, ErrorCode>(ErrorCode::InvalidPrice),
        amount > 0 && price > 0 && seller_yt_balance < amount ==> r == Err::<Listing, ErrorCode>(
            ErrorCode::InsufficientFunds,
        ),
        amount > 0 && price > 0 && seller_yt_balance >= amount ==> (r matches Ok(l)
            && l == (Listing { seller, yt_mint, amount, price, active: true, created_at: now })),
        r matches Ok(l) ==> l.wf(),
{
    if amount == 0 {
        return Err(ErrorCode::InvalidAmount);
    }
    if price == 0 {
        return Err(ErrorCode::InvalidPrice);
    }
    if seller_yt_balance < amount {
        return Err(ErrorCode::InsufficientFunds);
    }
    Ok(Listing { seller, yt_mint, amount, price, active: true, created_at: now })
}

/// Buys an active, unexpired listing: closes it and asks the host to release
/// the escrowed yield tokens to the buyer and move the payment to the seller.
pub fn buy_yt(
    listing: &mut Listing,
    buyer: AccountId,
    buyer_balance: u64,
    now: i64,
) -> (r: Result<BuyEffects, ErrorCode>)
    requires
        (old(listing).active && buyer_balance >= old(listing).price && buyer != old(
            listing,
        ).seller) ==> fits_i64(now - old(listing).created_at),
    ensures
        r is Err ==> *final(listing) == *old(listing),
        !old(listing).active ==> r == Err::<BuyEffects, ErrorCode>(ErrorCode::ListingNotActive),
        old(listing).active && buyer_balance < old(listing).price ==> r == Err::<
            BuyEffects,
            ErrorCode,
        >(ErrorCode::InsufficientPayment),
        old(listing).active && buyer_balance >= old(listing).price && buyer == old(listing).seller
            ==> r == Err::<BuyEffects, ErrorCode>(ErrorCode::CannotBuyOwnListing),
        old(listing).active && buyer_balance >= old(listing).price && buyer != old(listing).seller
            && now - old(listing).created_at > LISTING_LIFETIME ==> r == Err::<
            BuyEffects,
            ErrorCode,
        >(ErrorCode::ListingExpired),
        old(listing).active && buyer_balance >= old(listing).price && buyer != old(listing).seller
            && now - old(listing).created_at <= LISTING_LIFETIME ==> (r matches Ok(e)
            && e == (BuyEffects {
                yt_to_buyer: old(listing).amount,
                payment_to_seller: old(listing).price,
            })
            && *final(listing) == (Listing { active: false, ..*old(listing) })),
{
    if !listing.active {
        return Err(ErrorCode::ListingNotActive);
    }
    if buyer_balance < listing.price {
        return Err(ErrorCode::InsufficientPayment);
    }
    if buyer == listing.seller {
        return Err(ErrorCode::CannotBuyOwnListing);
    }
    if now - listing.created_at > LISTING_LIFETIME {
        return Err(ErrorCode::ListingExpired);
    }
    listing.active = false;
    Ok(BuyEffects { yt_to_buyer: listing.amount, payment_to_seller: listing.price })
}

/// Cancels an active listing: closes it and asks the host to return the
/// escrowed yield tokens to the seller. The host only runs this for the
/// listing's own seller.
pub fn cancel_listing(listing: &mut Listing) -> (r: Result<u64, ErrorCode>)
    ensures
        !old(listing).active ==> r == Err::<u64, ErrorCode>(ErrorCode::ListingNotActive)
            && *final(listing) == *old(listing),
        old(listing).active ==> r == Ok::<u64, ErrorCode>(old(listing).amount) && *final(listing)
            == (Listing { active: false, ..*old(listing) }),
{
    if !listing.active {
        return Err(ErrorCode::ListingNotActive);
    }
    listing.active = false;
    Ok(listing.amount)
}

/// Opens a strategy with the given reward rate; refused outside the accepted
/// bounds.
pub fn create_strategy(token_address: AccountId, reward_apy: u64, now: i64) -> (r: Result<
    Strategy,
    ErrorCode,
>)
    ensures
        (reward_apy < MIN_REWARD_APY || reward_apy > MAX_REWARD_APY) ==> r == Err::<
            Strategy,
            ErrorCode,
        >(ErrorCode::InvalidAPY),
        MIN_REWARD_APY <= reward_apy <= MAX_REWARD_APY ==> (r matches Ok(s)
            && s == (Strategy { token_address, reward_apy, created_at: now })),
{
    if reward_apy > MAX_REWARD_APY {
        return Err(ErrorCode::InvalidAPY);
    }
    if reward_apy < MIN_REWARD_APY {
        return Err(ErrorCode::InvalidAPY);
    }
    Ok(Strategy { token_address, reward_apy, created_at: now })
}

/// Redeems `amount` yield tokens against the deposit: lowers the deposited
/// balance and asks the host to return the tokens from the vault together
/// with the reward accrued on them since the deposit was made.
///
/// The reward arithmetic is unchecked 64-bit arithmetic over the seconds
/// elapsed since the deposit, read as an unsigned value; the preconditions
/// keep it in range. A clock that has moved backwards therefore only passes
/// when the product is zero anyway.
pub fn redeem(
    strategy: &Strategy,
    user_deposit: &mut UserDeposit,
    amount: u64,
    now: i64,
) -> (r: Result<RedeemEffects, ErrorCode>)
    requires
        old(user_deposit).amount >= amount ==> fits_i64(now - old(user_deposit).deposit_time),
        old(user_deposit).amount >= amount ==> amount * strategy.reward_apy <= u64::MAX,
        old(user_deposit).amount >= amount ==> amount * strategy.reward_apy * wrap_to_u64(
            now - old(user_deposit).deposit_time,
        ) <= u64::MAX,
    ensures
        old(user_deposit).amount < amount ==> r == Err::<RedeemEffects, ErrorCode>(
            ErrorCode::InsufficientFunds,
        ) && *final(user_deposit) == *old(user_deposit),
        old(user_deposit).amount >= amount ==> (r matches Ok(e)
            && e == (RedeemEffects {
                yt_to_user: amount,
                reward_to_user: yield_increment(
                    amount,
                    strategy.reward_apy,
                    wrap_to_u64(now - old(user_deposit).deposit_time),
                ) as u64,
            })
            && *final(user_deposit) == (UserDeposit {
                amount: (old(user_deposit).amount - amount) as u64,
                ..*old(user_deposit)
            })),
{
    if user_deposit.amount < amount {
        return Err(ErrorCode::InsufficientFunds);
    }
    let elapsed: i64 = now - user_deposit.deposit_time;
    let elapsed_unsigned: u64 = if elapsed >= 0 {
        elapsed as u64
    } else {
        u64::MAX - ((-(elapsed + 1)) as u64)
    };
    let reward = (amount * strategy.reward_apy * elapsed_unsigned) / (YEAR_SECONDS * RATE_SCALE);
    user_deposit.amount = user_deposit.amount - amount;
    Ok(RedeemEffects { yt_to_user: amount, reward_to_user: reward })
}

} // verus!
