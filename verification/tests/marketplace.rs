use yield_protocol::account::AccountId;
use yield_protocol::marketplace::{
    buy_yt, cancel_listing, list_yt, ErrorCode, Listing, LISTING_LIFETIME,
};

fn seller() -> AccountId {
    AccountId { w0: 11, w1: 0, w2: 0, w3: 0 }
}

fn buyer() -> AccountId {
    AccountId { w0: 22, w1: 0, w2: 0, w3: 0 }
}

fn mint() -> AccountId {
    AccountId { w0: 33, w1: 0, w2: 0, w3: 0 }
}

fn open_listing() -> Listing {
    list_yt(seller(), mint(), 100, 40, 25, 1_000).unwrap()
}

#[test]
fn listing_of_zero_tokens_is_rejected() {
    assert_eq!(
        list_yt(seller(), mint(), 100, 40, 0, 1_000),
        Err(ErrorCode::InvalidAmount)
    );
}

#[test]
fn listing_at_price_zero_is_rejected() {
    assert_eq!(
        list_yt(seller(), mint(), 100, 0, 25, 1_000),
        Err(ErrorCode::InvalidPrice)
    );
}

#[test]
fn listing_beyond_the_sellers_balance_is_rejected() {
    assert_eq!(
        list_yt(seller(), mint(), 24, 40, 25, 1_000),
        Err(ErrorCode::InsufficientFunds)
    );
}

#[test]
fn listing_opens_active_with_the_given_terms() {
    let l = open_listing();
    assert_eq!(l.seller, seller());
    assert_eq!(l.yt_mint, mint());
    assert_eq!(l.amount, 25);
    assert_eq!(l.price, 40);
    assert!(l.active);
    assert_eq!(l.created_at, 1_000);
}

#[test]
fn buying_a_closed_listing_is_rejected() {
    let mut l = open_listing();
    l.active = false;
    assert_eq!(
        buy_yt(&mut l, buyer(), 40, 1_001),
        Err(ErrorCode::ListingNotActive)
    );
}

#[test]
fn buying_without_the_price_is_rejected() {
    let mut l = open_listing();
    assert_eq!(
        buy_yt(&mut l, buyer(), 39, 1_001),
        Err(ErrorCode::InsufficientPayment)
    );
    assert!(l.active);
}

#[test]
fn buying_ones_own_listing_is_rejected() {
    let mut l = open_listing();
    assert_eq!(
        buy_yt(&mut l, seller(), 40, 1_001),
        Err(ErrorCode::CannotBuyOwnListing)
    );
    assert!(l.active);
}

#[test]
fn buying_an_expired_listing_is_rejected() {
    let mut l = open_listing();
    assert_eq!(
        buy_yt(&mut l, buyer(), 40, 1_000 + LISTING_LIFETIME + 1),
        Err(ErrorCode::ListingExpired)
    );
    assert!(l.active);
}

#[test]
fn buying_at_the_last_moment_succeeds() {
    let mut l = open_listing();
    let e = buy_yt(&mut l, buyer(), 40, 1_000 + LISTING_LIFETIME).unwrap();
    assert_eq!(e.yt_to_buyer, 25);
    assert_eq!(e.payment_to_seller, 40);
    assert!(!l.active);
}

#[test]
fn a_listing_cannot_be_bought_twice() {
    let mut l = open_listing();
    assert!(buy_yt(&mut l, buyer(), 40, 1_001).is_ok());
    assert_eq!(
        buy_yt(&mut l, buyer(), 40, 1_002),
        Err(ErrorCode::ListingNotActive)
    );
}

#[test]
fn cancelling_a_closed_listing_is_rejected() {
    let mut l = open_listing();
    l.active = false;
    assert_eq!(cancel_listing(&mut l), Err(ErrorCode::ListingNotActive));
}

#[test]
fn cancelling_returns_the_escrowed_amount() {
    let mut l = open_listing();
    assert_eq!(cancel_listing(&mut l), Ok(25));
    assert!(!l.active);
    assert_eq!(l.amount, 25);
    assert_eq!(l.price, 40);
}
