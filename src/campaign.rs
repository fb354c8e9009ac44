use vstd::prelude::*;

use crate::error::ErrorCode;
use crate::ledger::{run_legs, Ledger, Leg};
use crate::split::{checked_sum, lemma_sum_push, lemma_sum_update, portion, portion_of, split, split_result, sum_of, Weighting, BASIS_POINTS};

verus! {

/// The most investors one campaign records.
pub const MAX_INVESTORS: usize = 100;

/// Seconds in a day, for campaign and license durations.
pub const SECONDS_PER_DAY: u64 = 86400;

/// An investor's account and the sum of its contributions.
#[derive(Clone, Copy, Debug, PartialEq, Eq, Structural)]
pub struct Investor {
    pub account: usize,
    pub contribution: u64,
}

/// `now` plus `days` whole days, where that fits in an `i64`.
pub open spec fn days_after(now: i64, days: u64) -> int {
    now + days * SECONDS_PER_DAY
}

/// The deadline `days` days after `now`; `ArithmeticOverflow` where it
/// does not fit.
pub fn deadline_after(now: i64, days: u64) -> (r: Result<i64, ErrorCode>)
    ensures
        days_after(now, days) <= i64::MAX ==> r == Ok::<i64, ErrorCode>(days_after(now, days) as i64),
        days_after(now, days) > i64::MAX ==> r == Err::<i64, ErrorCode>(ErrorCode::ArithmeticOverflow),
{
    let span: i128 = days as i128 * SECONDS_PER_DAY as i128;
    assert(span <= u64::MAX * 86400) by (nonlinear_arith)
        requires
            span == days * 86400,
            days <= u64::MAX,
    ;
    let end: i128 = now as i128 + span;
    if end > i64::MAX as i128 {
        return Err(ErrorCode::ArithmeticOverflow);
    }
    Ok(end as i64)
}

/// No account appears twice among the investors.
pub open spec fn distinct_accounts(s: Seq<Investor>) -> bool {
    forall|i: int, j: int| 0 <= i < j < s.len() ==> s[i].account != s[j].account
}

/// The investors after `account` contributed `amount`: its record grows,
/// or a new one is appended.
pub open spec fn credited(s: Seq<Investor>, account: usize, amount: u64) -> Seq<Investor> {
    if exists|k: int| 0 <= k < s.len() && s[k].account == account {
        let k = choose|k: int| 0 <= k < s.len() && s[k].account == account;
        s.update(k, Investor { account, contribution: (s[k].contribution + amount) as u64 })
    } else {
        s.push(Investor { account, contribution: amount })
    }
}

/// The contributions of the investors, in order.
pub open spec fn contributions_of(s: Seq<Investor>) -> Seq<u64> {
    Seq::new(s.len(), |i: int| s[i].contribution)
}

/// What each investor receives from `amount` of revenue: the royalty
/// `floor(amount * royalty_bps / 10000)` split in proportion to the
/// contributions (against one where they sum to zero).
pub open spec fn royalty_result(amount: u64, royalty_bps: u64, s: Seq<Investor>) -> Result<Seq<u64>, ErrorCode> {
    let total = sum_of(contributions_of(s));
    if royalty_bps > BASIS_POINTS {
        Err(ErrorCode::InvalidWeights)
    } else if amount * royalty_bps > u64::MAX {
        Err(ErrorCode::ArithmeticOverflow)
    } else if total > u64::MAX {
        Err(ErrorCode::ArithmeticOverflow)
    } else {
        split_result(
            portion(amount as int, royalty_bps as int, BASIS_POINTS as int) as u64,
            contributions_of(s),
            if total == 0 { 1 } else { total as u64 },
            Weighting::Proportional,
        )
    }
}

/// One payment from `source` to each investor, in order.
pub open spec fn payment_legs(source: usize, s: Seq<Investor>, amounts: Seq<u64>) -> Seq<Leg> {
    Seq::new(s.len(), |i: int| Leg { from: source, to: s[i].account, amount: amounts[i] })
}

/// Why `account` may not contribute `amount` at `now`, if it may not.
pub open spec fn contribute_error(c: Campaign, account: usize, amount: u64, now: i64) -> Option<ErrorCode> {
    let s = c.investors();
    if !c.approved() {
        Some(ErrorCode::InvalidState)
    } else if now > c.deadline() {
        Some(ErrorCode::Expired)
    } else if amount == 0 {
        Some(ErrorCode::InvalidAmount)
    } else if c.raised() + amount > u64::MAX {
        Some(ErrorCode::ArithmeticOverflow)
    } else if exists|k: int| 0 <= k < s.len() && s[k].account == account {
        let k = choose|k: int| 0 <= k < s.len() && s[k].account == account;
        if s[k].contribution + amount > u64::MAX {
            Some(ErrorCode::ArithmeticOverflow)
        } else {
            None
        }
    } else if s.len() >= MAX_INVESTORS {
        Some(ErrorCode::CapacityExceeded)
    } else {
        None
    }
}

/// Where `account` stands among `v`, if it does.
fn find_investor(v: &Vec<Investor>, account: usize) -> (r: Option<usize>)
    ensures
        match r {
            Some(k) => k < v@.len() && v@[k as int].account == account,
            None => forall|k: int| 0 <= k < v@.len() ==> v@[k].account != account,
        },
{
    let mut i: usize = 0;
    while i < v.len()
        invariant
            i <= v.len(),
            forall|k: int| 0 <= k < i ==> v@[k].account != account,
        decreases v.len() - i,
    {
        if v[i].account == account {
            return Some(i);
        }
        i = i + 1;
    }
    None
}

/// A fundraising campaign of one artist.
pub struct Campaign {
    id: u64,
    artist: usize,
    funding_goal: u64,
    deadline: i64,
    approved: bool,
    completed: bool,
    raised: u64,
    investors: Vec<Investor>,
}

/// The program-wide counter that numbers campaigns.
pub struct Dao {
    campaign_count: u64,
}

impl Dao {
    pub closed spec fn count(self) -> u64 {
        self.campaign_count
    }

    /// A counter that has numbered no campaign yet.
    pub fn initialize() -> (r: Dao)
        ensures
            r.count() == 0,
    {
        Dao { campaign_count: 0 }
    }

    /// Opens a campaign of `artist` for `duration_days` days from `now`,
    /// numbered one past the last. Unapproved, with nothing raised.
    pub fn create_campaign(&mut self, artist: usize, funding_goal: u64, duration_days: u64, now: i64) -> (r:
        Result<Campaign, ErrorCode>)
        ensures
            old(self).count() == u64::MAX || days_after(now, duration_days) > i64::MAX ==> r == Err::<
                Campaign,
                ErrorCode,
            >(ErrorCode::ArithmeticOverflow) && final(self).count() == old(self).count(),
            old(self).count() < u64::MAX && days_after(now, duration_days) <= i64::MAX ==> {
                &&& r is Ok
                &&& final(self).count() == old(self).count() + 1
                &&& r->Ok_0.id() == final(self).count()
                &&& r->Ok_0.artist() == artist
                &&& r->Ok_0.funding_goal() == funding_goal
                &&& r->Ok_0.deadline() == days_after(now, duration_days)
                &&& !r->Ok_0.approved() && !r->Ok_0.completed()
                &&& r->Ok_0.raised() == 0
                &&& r->Ok_0.investors() == Seq::<Investor>::empty()
                &&& r->Ok_0.wf()
            },
    {
        if self.campaign_count == u64::MAX {
            return Err(ErrorCode::ArithmeticOverflow);
        }
        let deadline = match deadline_after(now, duration_days) {
            Ok(d) => d,
            Err(e) => {
                return Err(e);
            },
        };
        self.campaign_count = self.campaign_count + 1;
        Ok(
            Campaign {
                id: self.campaign_count,
                artist,
                funding_goal,
                deadline,
                approved: false,
                completed: false,
                raised: 0,
                investors: Vec::new(),
            },
        )
    }
}

impl Campaign {
    pub closed spec fn id(self) -> u64 {
        self.id
    }

    pub closed spec fn artist(self) -> usize {
        self.artist
    }

    pub closed spec fn funding_goal(self) -> u64 {
        self.funding_goal
    }

    pub closed spec fn deadline(self) -> i64 {
        self.deadline
    }

    pub closed spec fn approved(self) -> bool {
        self.approved
    }

    pub closed spec fn completed(self) -> bool {
        self.completed
    }

    pub closed spec fn raised(self) -> u64 {
        self.raised
    }

    pub closed spec fn investors(self) -> Seq<Investor> {
        self.investors@
    }

    /// Investors are distinct and within capacity, and their contributions
    /// sum to what was raised.
    pub open spec fn wf(self) -> bool {
        &&& distinct_accounts(self.investors())
        &&& self.investors().len() <= MAX_INVESTORS
        &&& sum_of(contributions_of(self.investors())) == self.raised()
    }

    /// Whether the campaign has been approved.
    pub fn is_approved(&self) -> (r: bool)
        ensures
            r == self.approved(),
    {
        self.approved
    }

    /// Whether the campaign has been completed.
    pub fn is_completed(&self) -> (r: bool)
        ensures
            r == self.completed(),
    {
        self.completed
    }

    /// The total contributed so far.
    pub fn amount_raised(&self) -> (r: u64)
        ensures
            r == self.raised(),
    {
        self.raised
    }

    /// Approves the campaign for a holder of `governance_balance`
    /// governance tokens: refused without tokens (`Unauthorized`) or when
    /// already approved (`InvalidState`).
    pub fn approve_campaign(&mut self, governance_balance: u64) -> (r: Result<(), ErrorCode>)
        requires
            old(self).wf(),
        ensures
            final(self).wf(),
            old(self).approved() ==> r == Err::<(), ErrorCode>(ErrorCode::InvalidState),
            !old(self).approved() && governance_balance == 0 ==> r == Err::<(), ErrorCode>(
                ErrorCode::Unauthorized,
            ),
            r is Ok <==> !old(self).approved() && governance_balance > 0,
            final(self).approved() == (old(self).approved() || r is Ok),
            final(self).id() == old(self).id(),
            final(self).funding_goal() == old(self).funding_goal(),
            final(self).investors() == old(self).investors(),
            final(self).raised() == old(self).raised(),
            final(self).completed() == old(self).completed(),
            final(self).deadline() == old(self).deadline(),
            final(self).artist() == old(self).artist(),
    {
        if self.approved {
            return Err(ErrorCode::InvalidState);
        }
        if governance_balance == 0 {
            return Err(ErrorCode::Unauthorized);
        }
        self.approved = true;
        Ok(())
    }

    /// Records a contribution of `amount` by `account`, made at `now`, and
    /// hands the investor one governance token per unit contributed, from
    /// `dao_governance` to `investor_governance`, as one unit. The campaign
    /// must be approved and open, the amount above zero, and a new investor
    /// must find room. An investor's contributions add up.
    pub fn contribute_eth(
        &mut self,
        ledger: &mut Ledger,
        account: usize,
        dao_governance: usize,
        investor_governance: usize,
        amount: u64,
        now: i64,
    ) -> (r: Result<(), ErrorCode>)
        requires
            old(self).wf(),
        ensures
            final(self).wf(),
            final(self).approved() == old(self).approved(),
            final(self).completed() == old(self).completed(),
            final(self).deadline() == old(self).deadline(),
            final(self).artist() == old(self).artist(),
            final(self).id() == old(self).id(),
            final(self).funding_goal() == old(self).funding_goal(),
            match contribute_error(*old(self), account, amount, now) {
                Some(e) => r == Err::<(), ErrorCode>(e) && final(self).investors() == old(self).investors()
                    && final(self).raised() == old(self).raised() && final(ledger)@ == old(ledger)@,
                None => match run_legs(
                    old(ledger)@,
                    seq![Leg { from: dao_governance, to: investor_governance, amount }],
                ) {
                    Err(e) => r == Err::<(), ErrorCode>(e) && final(self).investors() == old(self).investors()
                        && final(self).raised() == old(self).raised() && final(ledger)@ == old(ledger)@,
                    Ok(nb) => r is Ok && final(self).investors() == credited(
                        old(self).investors(),
                        account,
                        amount,
                    ) && final(self).raised() == old(self).raised() + amount && final(ledger)@ == nb,
                },
            },
    {
        if !self.approved {
            return Err(ErrorCode::InvalidState);
        }
        if now > self.deadline {
            return Err(ErrorCode::Expired);
        }
        if amount == 0 {
            return Err(ErrorCode::InvalidAmount);
        }
        if self.raised > u64::MAX - amount {
            return Err(ErrorCode::ArithmeticOverflow);
        }
        let ghost s = self.investors@;
        let found = find_investor(&self.investors, account);
        match found {
            Some(k) => {
                proof {
                    let c = choose|c: int| 0 <= c < s.len() && s[c].account == account;
                    assert(c == k as int);
                }
                if self.investors[k].contribution > u64::MAX - amount {
                    return Err(ErrorCode::ArithmeticOverflow);
                }
            },
            None => {
                if self.investors.len() >= MAX_INVESTORS {
                    return Err(ErrorCode::CapacityExceeded);
                }
            },
        }
        let mut legs: Vec<Leg> = Vec::new();
        legs.push(Leg { from: dao_governance, to: investor_governance, amount });
        assert(legs@ =~= seq![Leg { from: dao_governance, to: investor_governance, amount }]);
        match ledger.apply(&legs) {
            Ok(()) => {},
            Err(e) => {
                return Err(e);
            },
        }
        match found {
            Some(k) => {
                proof {
                    let c = choose|c: int| 0 <= c < s.len() && s[c].account == account;
                    assert(c == k as int);
                }
                let held = self.investors[k].contribution;
                self.investors.set(k, Investor { account, contribution: held + amount });
                proof {
                    assert(contributions_of(self.investors@) =~= contributions_of(s).update(
                        k as int,
                        (held + amount) as u64,
                    ));
                    lemma_sum_update(contributions_of(s), k as int, (held + amount) as u64);
                }
            },
            None => {
                self.investors.push(Investor { account, contribution: amount });
                proof {
                    assert(contributions_of(self.investors@) =~= contributions_of(s).push(amount));
                    lemma_sum_push(contributions_of(s), amount);
                }
            },
        }
        self.raised = self.raised + amount;
        Ok(())
    }

    /// Marks the campaign completed: only its artist may, only after the
    /// deadline, and only once.
    pub fn complete_campaign(&mut self, caller: usize, now: i64) -> (r: Result<(), ErrorCode>)
        requires
            old(self).wf(),
        ensures
            final(self).wf(),
            caller != old(self).artist() ==> r == Err::<(), ErrorCode>(ErrorCode::Unauthorized),
            caller == old(self).artist() && now <= old(self).deadline() ==> r == Err::<(), ErrorCode>(
                ErrorCode::NotYetExpired,
            ),
            caller == old(self).artist() && now > old(self).deadline() && old(self).completed() ==> r
                == Err::<(), ErrorCode>(ErrorCode::InvalidState),
            r is Ok <==> caller == old(self).artist() && now > old(self).deadline() && !old(
                self,
            ).completed(),
            final(self).completed() == (old(self).completed() || r is Ok),
            final(self).id() == old(self).id(),
            final(self).funding_goal() == old(self).funding_goal(),
            final(self).deadline() == old(self).deadline(),
            final(self).artist() == old(self).artist(),
            final(self).investors() == old(self).investors(),
            final(self).raised() == old(self).raised(),
            final(self).approved() == old(self).approved(),
    {
        if caller != self.artist {
            return Err(ErrorCode::Unauthorized);
        }
        if now <= self.deadline {
            return Err(ErrorCode::NotYetExpired);
        }
        if self.completed {
            return Err(ErrorCode::InvalidState);
        }
        self.completed = true;
        Ok(())
    }
}

/// The royalty terms of a campaign and the revenue recorded under them.
pub struct Royalty {
    campaign_id: u64,
    total_revenue: u64,
    royalty_bps: u64,
}

impl Royalty {
    pub closed spec fn campaign_id(self) -> u64 {
        self.campaign_id
    }

    pub closed spec fn total_revenue(self) -> u64 {
        self.total_revenue
    }

    pub closed spec fn rate(self) -> u64 {
        self.royalty_bps
    }

    /// Terms that pay investors `royalty_bps` basis points of revenue;
    /// `InvalidWeights` above 100%.
    pub fn new(campaign_id: u64, royalty_bps: u64) -> (r: Result<Royalty, ErrorCode>)
        ensures
            royalty_bps > BASIS_POINTS ==> r == Err::<Royalty, ErrorCode>(ErrorCode::InvalidWeights),
            royalty_bps <= BASIS_POINTS ==> r is Ok && r->Ok_0.campaign_id() == campaign_id
                && r->Ok_0.rate() == royalty_bps && r->Ok_0.total_revenue() == 0,
    {
        if royalty_bps > BASIS_POINTS {
            return Err(ErrorCode::InvalidWeights);
        }
        Ok(Royalty { campaign_id, total_revenue: 0, royalty_bps })
    }

    /// Revenue recorded so far.
    pub fn revenue(&self) -> (r: u64)
        ensures
            r == self.total_revenue(),
    {
        self.total_revenue
    }

    /// Records `amount` of revenue of a completed campaign and pays the
    /// royalty on it from `source` to the investors in proportion to what
    /// each contributed, as one unit. Returns what each investor was paid.
    pub fn record_revenue(&mut self, campaign: &Campaign, ledger: &mut Ledger, source: usize, amount: u64) -> (r:
        Result<Vec<u64>, ErrorCode>)
        ensures
            final(self).campaign_id() == old(self).campaign_id(),
            final(self).rate() == old(self).rate(),
            !campaign.completed() ==> r == Err::<Vec<u64>, ErrorCode>(ErrorCode::InvalidState),
            campaign.completed() && old(self).total_revenue() + amount > u64::MAX ==> r == Err::<
                Vec<u64>,
                ErrorCode,
            >(ErrorCode::ArithmeticOverflow),
            r is Err ==> final(ledger)@ == old(ledger)@ && final(self).total_revenue() == old(
                self,
            ).total_revenue(),
            campaign.completed() && old(self).total_revenue() + amount <= u64::MAX ==> match royalty_result(
                amount,
                old(self).rate(),
                campaign.investors(),
            ) {
                Err(e) => r == Err::<Vec<u64>, ErrorCode>(e),
                Ok(v) => match run_legs(old(ledger)@, payment_legs(source, campaign.investors(), v)) {
                    Err(e) => r == Err::<Vec<u64>, ErrorCode>(e),
                    Ok(nb) => r is Ok && r->Ok_0@ == v && final(ledger)@ == nb && final(self).total_revenue()
                        == old(self).total_revenue() + amount,
                },
            },
    {
        if !campaign.completed {
            return Err(ErrorCode::InvalidState);
        }
        if self.total_revenue > u64::MAX - amount {
            return Err(ErrorCode::ArithmeticOverflow);
        }
        if self.royalty_bps > BASIS_POINTS {
            return Err(ErrorCode::InvalidWeights);
        }
        let royalty = match portion_of(amount, self.royalty_bps, BASIS_POINTS) {
            Ok(p) => p,
            Err(e) => {
                return Err(e);
            },
        };
        let mut contributions: Vec<u64> = Vec::new();
        let mut i: usize = 0;
        while i < campaign.investors.len()
            invariant
                i <= campaign.investors.len(),
                contributions@ == contributions_of(campaign.investors@.subrange(0, i as int)),
            decreases campaign.investors.len() - i,
        {
            contributions.push(campaign.investors[i].contribution);
            i = i + 1;
            assert(contributions@ =~= contributions_of(campaign.investors@.subrange(0, i as int)));
        }
        assert(campaign.investors@.subrange(0, i as int) =~= campaign.investors@);
        let total = match checked_sum(&contributions) {
            Some(t) => t,
            None => {
                return Err(ErrorCode::ArithmeticOverflow);
            },
        };
        let denominator = if total == 0 {
            1
        } else {
            total
        };
        let amounts = match split(royalty, &contributions, denominator, Weighting::Proportional) {
            Ok(v) => v,
            Err(e) => {
                return Err(e);
            },
        };
        let mut legs: Vec<Leg> = Vec::new();
        let mut j: usize = 0;
        while j < campaign.investors.len()
            invariant
                j <= campaign.investors.len(),
                amounts@.len() == campaign.investors@.len(),
                legs@ == payment_legs(source, campaign.investors@.subrange(0, j as int), amounts@),
            decreases campaign.investors.len() - j,
        {
            legs.push(Leg { from: source, to: campaign.investors[j].account, amount: amounts[j] });
            j = j + 1;
            assert(legs@ =~= payment_legs(source, campaign.investors@.subrange(0, j as int), amounts@));
        }
        assert(campaign.investors@.subrange(0, j as int) =~= campaign.investors@);
        match ledger.apply(&legs) {
            Ok(()) => {},
            Err(e) => {
                return Err(e);
            },
        }
        self.total_revenue = self.total_revenue + amount;
        Ok(amounts)
    }
}

} // verus!
