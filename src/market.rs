use vstd::prelude::*;

use crate::error::ErrorCode;
use crate::escrow::{sale_legs, settle, settle_result, settlement_legs};
use crate::ledger::{run_legs, Ledger, Leg};

verus! {

/// The highest fee rate a listing may carry: 10%.
pub const MAX_FEE_BPS: u64 = 1000;

/// How a listing is sold.
#[derive(Clone, Copy, Debug, PartialEq, Eq, Structural)]
pub enum SaleMode {
    FixedPrice,
    /// Bids are taken while the clock reads less than `deadline`.
    Auction { deadline: i64 },
}

#[derive(Clone, Copy, Debug, PartialEq, Eq, Structural)]
pub enum ListingState {
    Active,
    Closed,
}

/// A participant as the ledger knows it: the account that pays or is paid
/// and the account that holds the listed units.
#[derive(Clone, Copy, Debug, PartialEq, Eq, Structural)]
pub struct Party {
    pub funds: usize,
    pub units: usize,
}

/// Units of one asset offered for sale. `escrow` names the custodial
/// accounts that hold the listed units and the leading bid.
#[derive(Clone, Copy, Debug, PartialEq, Eq, Structural)]
pub struct Listing {
    pub asset: u64,
    pub seller: Party,
    pub escrow: Party,
    pub price: u64,
    pub remaining: u64,
    pub mode: SaleMode,
    pub highest_bid: u64,
    pub highest_bidder: Option<Party>,
    pub fee_bps: u64,
    pub state: ListingState,
}

/// What every stored listing satisfies: its fee is within the cap, an
/// active listing still has units, and there is a leading bidder exactly
/// when the leading bid is above zero.
pub open spec fn listing_wf(l: Listing) -> bool {
    &&& l.fee_bps <= MAX_FEE_BPS
    &&& (l.state == ListingState::Active ==> l.remaining > 0)
    &&& (l.highest_bidder is Some <==> l.highest_bid > 0)
    &&& (l.mode == SaleMode::FixedPrice ==> l.highest_bidder is None)
}

/// A fixed-price purchase of `quantity` units by `buyer`: the listing and
/// balances after it, or why it is refused.
pub open spec fn buy_step(l: Listing, b: Seq<u64>, platform: usize, buyer: Party, quantity: u64) -> Result<
    (Listing, Seq<u64>),
    ErrorCode,
> {
    if l.state == ListingState::Closed {
        Err(ErrorCode::InvalidState)
    } else if l.mode != SaleMode::FixedPrice {
        Err(ErrorCode::WrongMode)
    } else if l.price == 0 {
        Err(ErrorCode::NotForSale)
    } else if quantity == 0 || quantity > l.remaining {
        Err(ErrorCode::InvalidAmount)
    } else if l.price * quantity > u64::MAX {
        Err(ErrorCode::ArithmeticOverflow)
    } else {
        match settle_result((l.price * quantity) as u64, l.fee_bps) {
            Err(e) => Err(e),
            Ok(s) => match run_legs(
                b,
                sale_legs(l.escrow.units, buyer.units, quantity, buyer.funds, platform, l.seller.funds, s),
            ) {
                Err(e) => Err(e),
                Ok(nb) => Ok(
                    (
                        Listing {
                            remaining: (l.remaining - quantity) as u64,
                            state: if l.remaining == quantity {
                                ListingState::Closed
                            } else {
                                ListingState::Active
                            },
                            ..l
                        },
                        nb,
                    ),
                ),
            },
        }
    }
}

/// The legs of a bid: the previous leader, if any, gets its bid back from
/// escrow, and the new bid goes into escrow.
pub open spec fn bid_legs(l: Listing, bidder: Party, amount: u64) -> Seq<Leg> {
    match l.highest_bidder {
        Some(p) => seq![
            Leg { from: l.escrow.funds, to: p.funds, amount: l.highest_bid },
            Leg { from: bidder.funds, to: l.escrow.funds, amount },
        ],
        None => seq![Leg { from: bidder.funds, to: l.escrow.funds, amount }],
    }
}

/// A bid of `amount` by `bidder` at time `now`.
pub open spec fn bid_step(l: Listing, b: Seq<u64>, bidder: Party, amount: u64, now: i64) -> Result<
    (Listing, Seq<u64>),
    ErrorCode,
> {
    if l.state == ListingState::Closed {
        Err(ErrorCode::InvalidState)
    } else {
        match l.mode {
            SaleMode::FixedPrice => Err(ErrorCode::WrongMode),
            SaleMode::Auction { deadline } => if now >= deadline {
                Err(ErrorCode::Expired)
            } else if amount <= l.highest_bid {
                Err(ErrorCode::InvalidAmount)
            } else {
                match run_legs(b, bid_legs(l, bidder, amount)) {
                    Err(e) => Err(e),
                    Ok(nb) => Ok(
                        (Listing { highest_bid: amount, highest_bidder: Some(bidder), ..l }, nb),
                    ),
                }
            },
        }
    }
}

/// Closing an auction at time `now`: every remaining unit goes to the
/// leading bidder and the leading bid is settled.
pub open spec fn finalize_step(l: Listing, b: Seq<u64>, platform: usize, now: i64) -> Result<
    (Listing, Seq<u64>),
    ErrorCode,
> {
    if l.state == ListingState::Closed {
        Err(ErrorCode::InvalidState)
    } else {
        match l.mode {
            SaleMode::FixedPrice => Err(ErrorCode::WrongMode),
            SaleMode::Auction { deadline } => if now < deadline {
                Err(ErrorCode::NotYetExpired)
            } else {
                match l.highest_bidder {
                    None => Err(ErrorCode::NoBids),
                    Some(w) => match settle_result(l.highest_bid, l.fee_bps) {
                        Err(e) => Err(e),
                        Ok(s) => match run_legs(
                            b,
                            sale_legs(
                                l.escrow.units,
                                w.units,
                                l.remaining,
                                l.escrow.funds,
                                platform,
                                l.seller.funds,
                                s,
                            ),
                        ) {
                            Err(e) => Err(e),
                            Ok(nb) => Ok(
                                (Listing { remaining: 0, state: ListingState::Closed, ..l }, nb),
                            ),
                        },
                    },
                }
            },
        }
    }
}

/// Listing `quantity` units: the listing that `list_nft` stores and the
/// balances after the units moved into escrow, or why it is refused.
pub open spec fn create_step(
    b: Seq<u64>,
    default_fee: u64,
    seller: Party,
    escrow: Party,
    asset: u64,
    price: u64,
    quantity: u64,
    auction_duration: Option<u64>,
    now: i64,
    custom_fee: Option<u64>,
) -> Result<(Listing, Seq<u64>), ErrorCode> {
    let fee = match custom_fee {
        Some(f) => f,
        None => default_fee,
    };
    if fee > MAX_FEE_BPS {
        Err(ErrorCode::FeeTooHigh)
    } else if quantity == 0 {
        Err(ErrorCode::InvalidAmount)
    } else if auction_duration is Some && now + auction_duration->0 > i64::MAX {
        Err(ErrorCode::ArithmeticOverflow)
    } else {
        match run_legs(b, seq![Leg { from: seller.units, to: escrow.units, amount: quantity }]) {
            Err(e) => Err(e),
            Ok(nb) => Ok(
                (
                    Listing {
                        asset,
                        seller,
                        escrow,
                        price,
                        remaining: quantity,
                        mode: match auction_duration {
                            Some(d) => SaleMode::Auction { deadline: (now + d) as i64 },
                            None => SaleMode::FixedPrice,
                        },
                        highest_bid: 0,
                        highest_bidder: None,
                        fee_bps: fee,
                        state: ListingState::Active,
                    },
                    nb,
                ),
            ),
        }
    }
}

/// The listings of one platform together with the ledger that holds every
/// balance they touch.
pub struct Marketplace {
    ledger: Ledger,
    listings: Vec<Listing>,
    platform_funds: usize,
    platform_fee_bps: u64,
    secondary_fee_bps: u64,
}

/// `new` holds the state after an operation on listing `id` whose outcome
/// is `step`, and `r` reports it: all of it on success, nothing on failure.
pub open spec fn commits(
    old: Marketplace,
    new: Marketplace,
    id: usize,
    step: Result<(Listing, Seq<u64>), ErrorCode>,
    r: Result<(), ErrorCode>,
) -> bool {
    &&& new.same_settings(old)
    &&& match step {
        Ok((l, b)) => r is Ok && new.balances() == b && new.listings() == old.listings().update(
            id as int,
            l,
        ),
        Err(e) => r == Err::<(), ErrorCode>(e) && new.balances() == old.balances()
            && new.listings() == old.listings(),
    }
}

/// The outcome of `step` on listing `id`, or `NotFound` where there is none.
pub open spec fn on_listing(
    m: Marketplace,
    id: usize,
    step: Result<(Listing, Seq<u64>), ErrorCode>,
) -> Result<(Listing, Seq<u64>), ErrorCode> {
    if id < m.listings().len() {
        step
    } else {
        Err(ErrorCode::NotFound)
    }
}

impl Marketplace {
    pub closed spec fn balances(self) -> Seq<u64> {
        self.ledger@
    }

    pub closed spec fn listings(self) -> Seq<Listing> {
        self.listings@
    }

    pub closed spec fn platform(self) -> usize {
        self.platform_funds
    }

    pub closed spec fn default_fee(self) -> u64 {
        self.platform_fee_bps
    }

    pub closed spec fn secondary_fee(self) -> u64 {
        self.secondary_fee_bps
    }

    pub open spec fn same_settings(self, o: Marketplace) -> bool {
        &&& self.platform() == o.platform()
        &&& self.default_fee() == o.default_fee()
        &&& self.secondary_fee() == o.secondary_fee()
    }

    pub open spec fn wf(self) -> bool {
        &&& self.default_fee() <= MAX_FEE_BPS
        &&& forall|i: int| 0 <= i < self.listings().len() ==> listing_wf(#[trigger] self.listings()[i])
    }

    /// A market over `ledger` whose fees are paid into `platform_funds`.
    /// Both fee rates are capped at `MAX_FEE_BPS`.
    pub fn initialize(ledger: Ledger, platform_funds: usize, platform_fee_bps: u64, secondary_fee_bps: u64) -> (r:
        Result<Marketplace, ErrorCode>)
        ensures
            platform_fee_bps > MAX_FEE_BPS || secondary_fee_bps > MAX_FEE_BPS ==> r == Err::<
                Marketplace,
                ErrorCode,
            >(ErrorCode::FeeTooHigh),
            platform_fee_bps <= MAX_FEE_BPS && secondary_fee_bps <= MAX_FEE_BPS ==> r is Ok,
            r is Ok ==> {
                let m = r->Ok_0;
                &&& m.wf()
                &&& m.balances() == ledger@
                &&& m.listings() == Seq::<Listing>::empty()
                &&& m.platform() == platform_funds
                &&& m.default_fee() == platform_fee_bps
                &&& m.secondary_fee() == secondary_fee_bps
            },
    {
        if platform_fee_bps > MAX_FEE_BPS || secondary_fee_bps > MAX_FEE_BPS {
            return Err(ErrorCode::FeeTooHigh);
        }
        Ok(Marketplace { ledger, listings: Vec::new(), platform_funds, platform_fee_bps, secondary_fee_bps })
    }

    /// Opens a ledger account holding `initial` and returns its number.
    pub fn open_account(&mut self, initial: u64) -> (r: usize)
        requires
            old(self).balances().len() < usize::MAX,
        ensures
            r == old(self).balances().len(),
            final(self).balances() == old(self).balances().push(initial),
            final(self).listings() == old(self).listings(),
            final(self).same_settings(*old(self)),
            old(self).wf() ==> final(self).wf(),
    {
        let r = self.ledger.open_account(initial);
        assert(self.listings() == old(self).listings());
        assert(self.default_fee() == old(self).default_fee());
        r
    }

    /// The balance of `account`, if there is such an account.
    pub fn balance(&self, account: usize) -> (r: Option<u64>)
        ensures
            account < self.balances().len() ==> r == Some(self.balances()[account as int]),
            account >= self.balances().len() ==> r is None,
    {
        self.ledger.balance(account)
    }

    /// The listing stored under `id`, if any.
    pub fn listing(&self, id: usize) -> (r: Option<Listing>)
        ensures
            id < self.listings().len() ==> r == Some(self.listings()[id as int]),
            id >= self.listings().len() ==> r is None,
    {
        if id < self.listings.len() {
            Some(self.listings[id])
        } else {
            None
        }
    }

    /// Lists `quantity` units held in `seller.units`: they move into
    /// `escrow.units` and the new listing is stored under the returned
    /// identifier. `auction_duration` makes it an auction that ends that
    /// long after `now`; `custom_fee` replaces the platform's default fee.
    /// Where the deposit into escrow fails, no listing is stored.
    pub fn list_nft(
        &mut self,
        seller: Party,
        escrow: Party,
        asset: u64,
        price: u64,
        quantity: u64,
        auction_duration: Option<u64>,
        now: i64,
        custom_fee: Option<u64>,
    ) -> (r: Result<usize, ErrorCode>)
        requires
            old(self).wf(),
        ensures
            final(self).wf(),
            final(self).same_settings(*old(self)),
            match create_step(
                old(self).balances(),
                old(self).default_fee(),
                seller,
                escrow,
                asset,
                price,
                quantity,
                auction_duration,
                now,
                custom_fee,
            ) {
                Ok((l, nb)) => r == Ok::<usize, ErrorCode>(old(self).listings().len() as usize)
                    && final(self).balances() == nb && final(self).listings() == old(
                    self,
                ).listings().push(l),
                Err(e) => r == Err::<usize, ErrorCode>(e) && final(self).balances() == old(
                    self,
                ).balances() && final(self).listings() == old(self).listings(),
            },
    {
        let fee = match custom_fee {
            Some(f) => f,
            None => self.platform_fee_bps,
        };
        if fee > MAX_FEE_BPS {
            return Err(ErrorCode::FeeTooHigh);
        }
        if quantity == 0 {
            return Err(ErrorCode::InvalidAmount);
        }
        let mode = match auction_duration {
            Some(d) => {
                let end: i128 = now as i128 + d as i128;
                if end > i64::MAX as i128 {
                    return Err(ErrorCode::ArithmeticOverflow);
                }
                SaleMode::Auction { deadline: end as i64 }
            },
            None => SaleMode::FixedPrice,
        };
        let mut legs: Vec<Leg> = Vec::new();
        legs.push(Leg { from: seller.units, to: escrow.units, amount: quantity });
        assert(legs@ =~= seq![Leg { from: seller.units, to: escrow.units, amount: quantity }]);
        match self.ledger.apply(&legs) {
            Ok(()) => {},
            Err(e) => {
                assert(self.listings() == old(self).listings());
                return Err(e);
            },
        }
        let l = Listing {
            asset,
            seller,
            escrow,
            price,
            remaining: quantity,
            mode,
            highest_bid: 0,
            highest_bidder: None,
            fee_bps: fee,
            state: ListingState::Active,
        };
        let id = self.listings.len();
        self.listings.push(l);
        proof {
            assert forall|i: int| 0 <= i < self.listings().len() implies listing_wf(
                #[trigger] self.listings()[i],
            ) by {
                if i < id {
                    assert(self.listings()[i] == old(self).listings()[i]);
                }
            }
        }
        Ok(id)
    }

    /// Buys `quantity` units of fixed-price listing `id` at its unit price:
    /// the units go to `buyer.units`, the fee to the platform and the rest
    /// to the seller, all paid from `buyer.funds`, as one unit. The listing
    /// closes when its last unit is sold. A listing priced at zero is not
    /// for sale.
    pub fn buy_nft(&mut self, id: usize, buyer: Party, quantity: u64) -> (r: Result<(), ErrorCode>)
        requires
            old(self).wf(),
        ensures
            final(self).wf(),
            commits(
                *old(self),
                *final(self),
                id,
                on_listing(
                    *old(self),
                    id,
                    buy_step(
                        old(self).listings()[id as int],
                        old(self).balances(),
                        old(self).platform(),
                        buyer,
                        quantity,
                    ),
                ),
                r,
            ),
    {
        if id >= self.listings.len() {
            return Err(ErrorCode::NotFound);
        }
        let l = self.listings[id];
        if l.state == ListingState::Closed {
            return Err(ErrorCode::InvalidState);
        }
        if l.mode != SaleMode::FixedPrice {
            return Err(ErrorCode::WrongMode);
        }
        if l.price == 0 {
            return Err(ErrorCode::NotForSale);
        }
        if quantity == 0 || quantity > l.remaining {
            return Err(ErrorCode::InvalidAmount);
        }
        let total = match l.price.checked_mul(quantity) {
            Some(t) => t,
            None => {
                return Err(ErrorCode::ArithmeticOverflow);
            },
        };
        let s = match settle(total, l.fee_bps) {
            Ok(s) => s,
            Err(e) => {
                return Err(e);
            },
        };
        let legs = settlement_legs(
            l.escrow.units,
            buyer.units,
            quantity,
            buyer.funds,
            self.platform_funds,
            l.seller.funds,
            s,
        );
        match self.ledger.apply(&legs) {
            Ok(()) => {},
            Err(e) => {
                return Err(e);
            },
        }
        let nl = Listing {
            remaining: l.remaining - quantity,
            state: if l.remaining == quantity {
                ListingState::Closed
            } else {
                ListingState::Active
            },
            ..l
        };
        self.listings.set(id, nl);
        proof {
            assert forall|i: int| 0 <= i < self.listings().len() implies listing_wf(
                #[trigger] self.listings()[i],
            ) by {
                if i != id {
                    assert(self.listings()[i] == old(self).listings()[i]);
                } else {
                    assert(listing_wf(old(self).listings()[i]));
                }
            }
        }
        Ok(())
    }

    /// Bids `amount` from `bidder.funds` on auction `id` at time `now`.
    /// The bid must be above the leading one. The previous leader is
    /// refunded from escrow and the new bid deposited, as one unit.
    pub fn place_bid(&mut self, id: usize, bidder: Party, amount: u64, now: i64) -> (r: Result<(), ErrorCode>)
        requires
            old(self).wf(),
        ensures
            final(self).wf(),
            commits(
                *old(self),
                *final(self),
                id,
                on_listing(
                    *old(self),
                    id,
                    bid_step(old(self).listings()[id as int], old(self).balances(), bidder, amount, now),
                ),
                r,
            ),
    {
        if id >= self.listings.len() {
            return Err(ErrorCode::NotFound);
        }
        let l = self.listings[id];
        if l.state == ListingState::Closed {
            return Err(ErrorCode::InvalidState);
        }
        let deadline = match l.mode {
            SaleMode::FixedPrice => {
                return Err(ErrorCode::WrongMode);
            },
            SaleMode::Auction { deadline } => deadline,
        };
        if now >= deadline {
            return Err(ErrorCode::Expired);
        }
        if amount <= l.highest_bid {
            return Err(ErrorCode::InvalidAmount);
        }
        let mut legs: Vec<Leg> = Vec::new();
        match l.highest_bidder {
            Some(p) => {
                legs.push(Leg { from: l.escrow.funds, to: p.funds, amount: l.highest_bid });
            },
            None => {},
        }
        legs.push(Leg { from: bidder.funds, to: l.escrow.funds, amount });
        assert(legs@ =~= bid_legs(l, bidder, amount));
        match self.ledger.apply(&legs) {
            Ok(()) => {},
            Err(e) => {
                return Err(e);
            },
        }
        let nl = Listing { highest_bid: amount, highest_bidder: Some(bidder), ..l };
        self.listings.set(id, nl);
        proof {
            assert forall|i: int| 0 <= i < self.listings().len() implies listing_wf(
                #[trigger] self.listings()[i],
            ) by {
                if i != id {
                    assert(self.listings()[i] == old(self).listings()[i]);
                } else {
                    assert(listing_wf(old(self).listings()[i]));
                }
            }
        }
        Ok(())
    }

    /// Closes auction `id` once `now` has reached its deadline: every
    /// remaining unit goes to the leading bidder and the leading bid is
    /// settled from escrow between platform and seller, as one unit.
    /// Without a bid the auction stays open.
    pub fn finalize_auction(&mut self, id: usize, now: i64) -> (r: Result<(), ErrorCode>)
        requires
            old(self).wf(),
        ensures
            final(self).wf(),
            commits(
                *old(self),
                *final(self),
                id,
                on_listing(
                    *old(self),
                    id,
                    finalize_step(old(self).listings()[id as int], old(self).balances(), old(self).platform(), now),
                ),
                r,
            ),
    {
        if id >= self.listings.len() {
            return Err(ErrorCode::NotFound);
        }
        let l = self.listings[id];
        if l.state == ListingState::Closed {
            return Err(ErrorCode::InvalidState);
        }
        let deadline = match l.mode {
            SaleMode::FixedPrice => {
                return Err(ErrorCode::WrongMode);
            },
            SaleMode::Auction { deadline } => deadline,
        };
        if now < deadline {
            return Err(ErrorCode::NotYetExpired);
        }
        let winner = match l.highest_bidder {
            None => {
                return Err(ErrorCode::NoBids);
            },
            Some(w) => w,
        };
        let s = match settle(l.highest_bid, l.fee_bps) {
            Ok(s) => s,
            Err(e) => {
                return Err(e);
            },
        };
        let legs = settlement_legs(
            l.escrow.units,
            winner.units,
            l.remaining,
            l.escrow.funds,
            self.platform_funds,
            l.seller.funds,
            s,
        );
        match self.ledger.apply(&legs) {
            Ok(()) => {},
            Err(e) => {
                return Err(e);
            },
        }
        let nl = Listing { remaining: 0, state: ListingState::Closed, ..l };
        self.listings.set(id, nl);
        proof {
            assert forall|i: int| 0 <= i < self.listings().len() implies listing_wf(
                #[trigger] self.listings()[i],
            ) by {
                if i != id {
                    assert(self.listings()[i] == old(self).listings()[i]);
                } else {
                    assert(listing_wf(old(self).listings()[i]));
                }
            }
        }
        Ok(())
    }

    /// The number of listings ever created; closed ones stay on record.
    pub fn listing_count(&self) -> (r: usize)
        ensures
            r == self.listings().len(),
    {
        self.listings.len()
    }
}

/// The lifecycle of a listing only moves forward. A closed listing refuses
/// every operation; no operation reopens a listing; the remaining quantity
/// never grows; an accepted bid is strictly above the one it replaces.
pub proof fn lemma_listing_moves_forward(
    l: Listing,
    b: Seq<u64>,
    platform: usize,
    party: Party,
    quantity: u64,
    amount: u64,
    now: i64,
)
    ensures
        l.state == ListingState::Closed ==> {
            &&& buy_step(l, b, platform, party, quantity) == Err::<(Listing, Seq<u64>), ErrorCode>(
                ErrorCode::InvalidState,
            )
            &&& bid_step(l, b, party, amount, now) == Err::<(Listing, Seq<u64>), ErrorCode>(
                ErrorCode::InvalidState,
            )
            &&& finalize_step(l, b, platform, now) == Err::<(Listing, Seq<u64>), ErrorCode>(
                ErrorCode::InvalidState,
            )
        },
        buy_step(l, b, platform, party, quantity) is Ok ==> {
            let nl = buy_step(l, b, platform, party, quantity)->Ok_0.0;
            &&& nl.remaining < l.remaining
            &&& nl.highest_bid == l.highest_bid
            &&& (nl.state == ListingState::Closed <==> nl.remaining == 0)
        },
        bid_step(l, b, party, amount, now) is Ok ==> {
            let nl = bid_step(l, b, party, amount, now)->Ok_0.0;
            &&& nl.remaining == l.remaining
            &&& nl.highest_bid > l.highest_bid
            &&& nl.state == ListingState::Active
        },
        finalize_step(l, b, platform, now) is Ok ==> {
            let nl = finalize_step(l, b, platform, now)->Ok_0.0;
            &&& nl.remaining == 0
            &&& nl.highest_bid == l.highest_bid
            &&& nl.state == ListingState::Closed
        },
{
}

/// One call of `place_bid`: who bids, how much, and when.
#[derive(Clone, Copy, Debug, PartialEq, Eq, Structural)]
pub struct BidCall {
    pub bidder: Party,
    pub amount: u64,
    pub now: i64,
}

/// The listing and balances after `bids` were placed in order, or the error
/// of the first one refused.
pub open spec fn run_bids(l: Listing, b: Seq<u64>, bids: Seq<BidCall>) -> Result<
    (Listing, Seq<u64>),
    ErrorCode,
>
    decreases bids.len(),
{
    if bids.len() == 0 {
        Ok((l, b))
    } else {
        match run_bids(l, b, bids.drop_last()) {
            Ok((l2, b2)) => bid_step(l2, b2, bids.last().bidder, bids.last().amount, bids.last().now),
            Err(e) => Err(e),
        }
    }
}

/// The refunds that `bids`, placed in order, pay out of escrow: each
/// accepted bid that finds a leader returns the leader's bid to it.
pub open spec fn run_refunds(l: Listing, b: Seq<u64>, bids: Seq<BidCall>) -> Seq<Leg>
    decreases bids.len(),
{
    if bids.len() == 0 {
        Seq::empty()
    } else {
        let earlier = run_refunds(l, b, bids.drop_last());
        match run_bids(l, b, bids.drop_last()) {
            Ok((l2, _)) => match l2.highest_bidder {
                Some(p) => earlier.push(Leg { from: l2.escrow.funds, to: p.funds, amount: l2.highest_bid }),
                None => earlier,
            },
            Err(_) => earlier,
        }
    }
}

/// `b` with `amount` moved from `payer` into `escrow`.
pub open spec fn deposited(b: Seq<u64>, escrow: usize, payer: usize, amount: u64) -> Seq<u64> {
    b.update(escrow as int, (b[escrow as int] + amount) as u64).update(
        payer as int,
        (b[payer as int] - amount) as u64,
    )
}

proof fn lemma_run_two(b: Seq<u64>, x: Leg, y: Leg)
    ensures
        run_legs(b, seq![x, y]) == (match run_legs(b, seq![x]) {
            Ok(m) => match crate::ledger::leg_error(m, y) {
                Some(e) => Err(e),
                None => Ok(crate::ledger::after_leg(m, y)),
            },
            Err(e) => Err(e),
        }),
        run_legs(b, seq![x]) == (match crate::ledger::leg_error(b, x) {
            Some(e) => Err(e),
            None => Ok(crate::ledger::after_leg(b, x)),
        }),
{
    assert(seq![x, y].drop_last() =~= seq![x]);
    assert(seq![x].drop_last() =~= Seq::<Leg>::empty());
    assert(run_legs(b, Seq::<Leg>::empty()) == Ok::<Seq<u64>, ErrorCode>(b));
    assert(seq![x].last() == x);
    assert(seq![x, y].last() == y);
}

/// Outbid bidders are made whole. After a run of accepted bids on an
/// auction that had none, the accepted amounts rise strictly, the last
/// bidder leads with the last amount, escrow holds exactly that amount
/// more than before, the last bidder's account holds it less, and every
/// other account, each outbid bidder's included, is where it started.
/// The refunds made are exactly one per outbid bid, in order, each
/// returning that bid to its bidder; the last bid is not refunded.
pub proof fn lemma_outbid_refunded(l: Listing, b: Seq<u64>, bids: Seq<BidCall>)
    requires
        l.highest_bidder is None,
        l.highest_bid == 0,
        bids.len() > 0,
        forall|i: int| 0 <= i < bids.len() ==> (#[trigger] bids[i]).bidder.funds != l.escrow.funds,
        run_bids(l, b, bids) is Ok,
    ensures
        ({
            let (fl, fb) = run_bids(l, b, bids)->Ok_0;
            &&& fl.escrow == l.escrow
            &&& fl.highest_bid == bids.last().amount
            &&& fl.highest_bidder == Some(bids.last().bidder)
            &&& l.escrow.funds < b.len() && bids.last().bidder.funds < b.len()
            &&& b[l.escrow.funds as int] + bids.last().amount <= u64::MAX
            &&& b[bids.last().bidder.funds as int] >= bids.last().amount
            &&& fb == deposited(b, l.escrow.funds, bids.last().bidder.funds, bids.last().amount)
        }),
        run_refunds(l, b, bids) == Seq::new(
            (bids.len() - 1) as nat,
            |k: int| Leg { from: l.escrow.funds, to: bids[k].bidder.funds, amount: bids[k].amount },
        ),
        forall|i: int| 0 <= i < bids.len() - 1 ==> (#[trigger] bids[i]).amount < bids[i + 1].amount,
    decreases bids.len(),
{
    let c = bids.last();
    let e = l.escrow.funds;
    let dep = Leg { from: c.bidder.funds, to: e, amount: c.amount };
    if bids.len() == 1 {
        assert(bids.drop_last() =~= Seq::<BidCall>::empty());
        lemma_run_two(b, dep, dep);
        assert(bid_legs(l, c.bidder, c.amount) == seq![dep]);
        let fb = run_bids(l, b, bids)->Ok_0.1;
        assert(fb =~= deposited(b, e, c.bidder.funds, c.amount));
        assert(run_bids(l, b, bids.drop_last()) == Ok::<(Listing, Seq<u64>), ErrorCode>((l, b)));
        assert(run_refunds(l, b, bids.drop_last()) == Seq::<Leg>::empty());
        assert(run_refunds(l, b, bids) =~= Seq::new(
            (bids.len() - 1) as nat,
            |k: int| Leg { from: l.escrow.funds, to: bids[k].bidder.funds, amount: bids[k].amount },
        ));
    } else {
        let prev = bids.drop_last();
        lemma_outbid_refunded(l, b, prev);
        assert(forall|i: int| 0 <= i < prev.len() ==> prev[i] == bids[i]);
        let (l2, b2) = run_bids(l, b, prev)->Ok_0;
        let p = prev.last();
        assert(p == bids[bids.len() - 2]);
        let refund = Leg { from: e, to: p.bidder.funds, amount: p.amount };
        assert(bid_legs(l2, c.bidder, c.amount) == seq![refund, dep]);
        lemma_run_two(b2, refund, dep);
        let b3 = crate::ledger::after_leg(b2, refund);
        assert(b3 =~= b);
        let fb = run_bids(l, b, bids)->Ok_0.1;
        assert(fb =~= deposited(b, e, c.bidder.funds, c.amount));
        assert(run_refunds(l, b, bids) =~= Seq::new(
            (bids.len() - 1) as nat,
            |k: int| Leg { from: l.escrow.funds, to: bids[k].bidder.funds, amount: bids[k].amount },
        ));
    }
}

} // verus!
