use escrow_ledger::error::ErrorCode;
use escrow_ledger::ledger::Ledger;
use escrow_ledger::market::{ListingState, Marketplace, Party, SaleMode};

struct Accounts {
    platform: usize,
    seller: Party,
    escrow: Party,
    alice: Party,
    bob: Party,
    carol: Party,
}

fn setup(fee_bps: u64) -> (Marketplace, Accounts) {
    let mut l = Ledger::new();
    let platform = l.open_account(0);
    let mut m = Marketplace::initialize(l, platform, fee_bps, 0).unwrap();
    let seller = Party { funds: m.open_account(0), units: m.open_account(5) };
    let escrow = Party { funds: m.open_account(0), units: m.open_account(0) };
    let alice = Party { funds: m.open_account(1000), units: m.open_account(0) };
    let bob = Party { funds: m.open_account(1000), units: m.open_account(0) };
    let carol = Party { funds: m.open_account(1000), units: m.open_account(0) };
    (m, Accounts { platform, seller, escrow, alice, bob, carol })
}

#[test]
fn initialize_caps_fees() {
    assert!(matches!(Marketplace::initialize(Ledger::new(), 0, 1001, 0), Err(ErrorCode::FeeTooHigh)));
    assert!(matches!(Marketplace::initialize(Ledger::new(), 0, 0, 1001), Err(ErrorCode::FeeTooHigh)));
    assert!(Marketplace::initialize(Ledger::new(), 0, 1000, 1000).is_ok());
}

#[test]
fn listing_moves_units_into_escrow() {
    let (mut m, a) = setup(250);
    let id = m.list_nft(a.seller, a.escrow, 7, 100, 3, None, 0, None).unwrap();
    assert_eq!(id, 0);
    assert_eq!(m.balance(a.seller.units), Some(2));
    assert_eq!(m.balance(a.escrow.units), Some(3));
    let l = m.listing(id).unwrap();
    assert_eq!(l.remaining, 3);
    assert_eq!(l.fee_bps, 250);
    assert_eq!(l.mode, SaleMode::FixedPrice);
    assert_eq!(l.state, ListingState::Active);
}

#[test]
fn buy_all_closes_and_too_many_is_refused() {
    let (mut m, a) = setup(1000);
    let id = m.list_nft(a.seller, a.escrow, 7, 100, 3, None, 0, None).unwrap();
    assert_eq!(m.buy_nft(id, a.alice, 4), Err(ErrorCode::InvalidAmount));
    assert_eq!(m.listing(id).unwrap().remaining, 3);
    assert_eq!(m.balance(a.alice.funds), Some(1000));
    assert_eq!(m.balance(a.escrow.units), Some(3));
    assert_eq!(m.buy_nft(id, a.alice, 3), Ok(()));
    let l = m.listing(id).unwrap();
    assert_eq!(l.state, ListingState::Closed);
    assert_eq!(l.remaining, 0);
    assert_eq!(m.balance(a.alice.units), Some(3));
    assert_eq!(m.balance(a.alice.funds), Some(700));
    assert_eq!(m.balance(a.platform), Some(30));
    assert_eq!(m.balance(a.seller.funds), Some(270));
    assert_eq!(m.buy_nft(id, a.bob, 1), Err(ErrorCode::InvalidState));
}

#[test]
fn partial_buy_keeps_listing_active() {
    let (mut m, a) = setup(250);
    let id = m.list_nft(a.seller, a.escrow, 7, 99, 3, None, 0, None).unwrap();
    assert_eq!(m.buy_nft(id, a.alice, 2), Ok(()));
    let l = m.listing(id).unwrap();
    assert_eq!(l.remaining, 1);
    assert_eq!(l.state, ListingState::Active);
    assert_eq!(m.balance(a.platform), Some(4));
    assert_eq!(m.balance(a.seller.funds), Some(194));
    assert_eq!(m.buy_nft(id, a.alice, 0), Err(ErrorCode::InvalidAmount));
}

#[test]
fn buy_without_funds_changes_nothing() {
    let (mut m, a) = setup(250);
    let id = m.list_nft(a.seller, a.escrow, 7, 600, 2, None, 0, None).unwrap();
    assert_eq!(m.buy_nft(id, a.alice, 2), Err(ErrorCode::InsufficientFunds));
    assert_eq!(m.balance(a.escrow.units), Some(2));
    assert_eq!(m.balance(a.alice.units), Some(0));
    assert_eq!(m.balance(a.alice.funds), Some(1000));
    assert_eq!(m.balance(a.platform), Some(0));
    assert_eq!(m.listing(id).unwrap().remaining, 2);
}

#[test]
fn modes_are_not_mixed() {
    let (mut m, a) = setup(250);
    let fixed = m.list_nft(a.seller, a.escrow, 7, 10, 1, None, 0, None).unwrap();
    let auction = m.list_nft(a.seller, a.escrow, 8, 10, 1, Some(100), 0, None).unwrap();
    assert_eq!(m.place_bid(fixed, a.alice, 50, 1), Err(ErrorCode::WrongMode));
    assert_eq!(m.finalize_auction(fixed, 1), Err(ErrorCode::WrongMode));
    assert_eq!(m.buy_nft(auction, a.alice, 1), Err(ErrorCode::WrongMode));
    assert_eq!(m.buy_nft(9, a.alice, 1), Err(ErrorCode::NotFound));
}

#[test]
fn free_listing_is_not_for_sale() {
    let (mut m, a) = setup(250);
    let id = m.list_nft(a.seller, a.escrow, 7, 0, 2, None, 0, None).unwrap();
    assert_eq!(m.buy_nft(id, a.alice, 1), Err(ErrorCode::NotForSale));
    assert_eq!(m.balance(a.escrow.units), Some(2));
    assert_eq!(m.balance(a.alice.units), Some(0));
    assert_eq!(m.listing(id).unwrap().remaining, 2);
}

#[test]
fn custom_fee_above_cap_is_refused() {
    let (mut m, a) = setup(250);
    assert_eq!(m.list_nft(a.seller, a.escrow, 7, 10, 1, None, 0, Some(1001)), Err(ErrorCode::FeeTooHigh));
    let id = m.list_nft(a.seller, a.escrow, 7, 10, 1, None, 0, Some(1000)).unwrap();
    assert_eq!(m.listing(id).unwrap().fee_bps, 1000);
}

#[test]
fn failed_deposit_stores_no_listing() {
    let (mut m, a) = setup(250);
    assert_eq!(m.list_nft(a.seller, a.escrow, 7, 10, 6, None, 0, None), Err(ErrorCode::InsufficientFunds));
    assert_eq!(m.listing_count(), 0);
    assert!(m.listing(0).is_none());
    assert_eq!(m.balance(a.seller.units), Some(5));
    assert_eq!(m.balance(a.escrow.units), Some(0));
    assert_eq!(m.list_nft(a.seller, a.escrow, 7, 10, 0, None, 0, None), Err(ErrorCode::InvalidAmount));
    assert_eq!(m.list_nft(a.seller, a.escrow, 7, 10, 1, Some(u64::MAX), 0, None), Err(ErrorCode::ArithmeticOverflow));
    assert_eq!(m.listing_count(), 0);
}

#[test]
fn auction_deadline_is_duration_after_now() {
    let (mut m, a) = setup(250);
    let id = m.list_nft(a.seller, a.escrow, 7, 10, 1, Some(3600), 500, None).unwrap();
    assert_eq!(m.listing(id).unwrap().mode, SaleMode::Auction { deadline: 4100 });
}

#[test]
fn outbid_bidders_are_refunded_once() {
    let (mut m, a) = setup(250);
    let id = m.list_nft(a.seller, a.escrow, 7, 10, 1, Some(100), 0, None).unwrap();
    assert_eq!(m.place_bid(id, a.alice, 100, 1), Ok(()));
    assert_eq!(m.place_bid(id, a.bob, 150, 2), Ok(()));
    assert_eq!(m.place_bid(id, a.carol, 200, 3), Ok(()));
    assert_eq!(m.balance(a.escrow.funds), Some(200));
    assert_eq!(m.balance(a.alice.funds), Some(1000));
    assert_eq!(m.balance(a.bob.funds), Some(1000));
    assert_eq!(m.balance(a.carol.funds), Some(800));
    let l = m.listing(id).unwrap();
    assert_eq!(l.highest_bid, 200);
    assert_eq!(l.highest_bidder, Some(a.carol));
}

#[test]
fn rejected_bid_leaves_leader_and_balances() {
    let (mut m, a) = setup(250);
    let id = m.list_nft(a.seller, a.escrow, 7, 10, 1, Some(100), 0, None).unwrap();
    assert_eq!(m.place_bid(id, a.alice, 100, 1), Ok(()));
    assert_eq!(m.place_bid(id, a.bob, 90, 2), Err(ErrorCode::InvalidAmount));
    assert_eq!(m.place_bid(id, a.bob, 100, 2), Err(ErrorCode::InvalidAmount));
    let l = m.listing(id).unwrap();
    assert_eq!(l.highest_bid, 100);
    assert_eq!(l.highest_bidder, Some(a.alice));
    assert_eq!(m.balance(a.alice.funds), Some(900));
    assert_eq!(m.balance(a.bob.funds), Some(1000));
    assert_eq!(m.balance(a.escrow.funds), Some(100));
}

#[test]
fn bid_after_deadline_is_refused() {
    let (mut m, a) = setup(250);
    let id = m.list_nft(a.seller, a.escrow, 7, 10, 1, Some(100), 0, None).unwrap();
    assert_eq!(m.place_bid(id, a.alice, 100, 100), Err(ErrorCode::Expired));
    assert_eq!(m.balance(a.alice.funds), Some(1000));
}

#[test]
fn finalize_waits_for_deadline_and_a_bid() {
    let (mut m, a) = setup(250);
    let id = m.list_nft(a.seller, a.escrow, 7, 10, 1, Some(100), 0, None).unwrap();
    assert_eq!(m.finalize_auction(id, 99), Err(ErrorCode::NotYetExpired));
    assert_eq!(m.finalize_auction(id, 100), Err(ErrorCode::NoBids));
    assert_eq!(m.listing(id).unwrap().state, ListingState::Active);
    assert_eq!(m.balance(a.escrow.units), Some(1));
}

#[test]
fn finalize_settles_the_leading_bid() {
    let (mut m, a) = setup(1000);
    let id = m.list_nft(a.seller, a.escrow, 7, 10, 2, Some(100), 0, None).unwrap();
    assert_eq!(m.place_bid(id, a.alice, 100, 1), Ok(()));
    assert_eq!(m.place_bid(id, a.bob, 555, 2), Ok(()));
    assert_eq!(m.finalize_auction(id, 100), Ok(()));
    let l = m.listing(id).unwrap();
    assert_eq!(l.state, ListingState::Closed);
    assert_eq!(l.remaining, 0);
    assert_eq!(m.balance(a.bob.units), Some(2));
    assert_eq!(m.balance(a.escrow.units), Some(0));
    assert_eq!(m.balance(a.escrow.funds), Some(0));
    assert_eq!(m.balance(a.platform), Some(55));
    assert_eq!(m.balance(a.seller.funds), Some(500));
    assert_eq!(m.balance(a.alice.funds), Some(1000));
    assert_eq!(m.finalize_auction(id, 200), Err(ErrorCode::InvalidState));
    assert_eq!(m.place_bid(id, a.carol, 900, 50), Err(ErrorCode::InvalidState));
}
