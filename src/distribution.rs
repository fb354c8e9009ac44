use vstd::prelude::*;

use crate::error::ErrorCode;
use crate::escrow::{settle, settle_result};
use crate::ledger::{run_legs, Ledger, Leg};
use crate::split::{checked_sum, lemma_split_within_total, split, split_result, sum_of, Weighting, BASIS_POINTS};

verus! {

/// The most beneficiaries one plan may hold.
pub const MAX_BENEFICIARIES: usize = 10;

/// A party entitled to part of each distribution, paid into `account`.
/// `share` is a basis-point weight or a raw contribution, as the plan's
/// weighting says.
#[derive(Clone, Copy, Debug, PartialEq, Eq, Structural)]
pub struct Beneficiary {
    pub account: usize,
    pub share: u64,
}

/// What one distribution pays: the platform's fee, then each
/// beneficiary's amount in the plan's order.
pub struct Payout {
    pub fee: u64,
    pub amounts: Vec<u64>,
}

/// The shares of a sequence of beneficiaries, in order.
pub open spec fn shares_of(bs: Seq<Beneficiary>) -> Seq<u64> {
    Seq::new(bs.len(), |i: int| bs[i].share)
}

/// The fee on `total` and each share's part of what the fee leaves. Each
/// share is weighed against the sum of all shares; under fixed basis
/// points that sum may not pass 100%.
pub open spec fn payout_result(total: u64, fee_bps: u64, shares: Seq<u64>, weighting: Weighting) -> Result<
    (u64, Seq<u64>),
    ErrorCode,
> {
    if sum_of(shares) == 0 {
        Err(ErrorCode::InvalidWeights)
    } else if weighting == Weighting::FixedBps && sum_of(shares) > BASIS_POINTS {
        Err(ErrorCode::InvalidWeights)
    } else if sum_of(shares) > u64::MAX {
        Err(ErrorCode::ArithmeticOverflow)
    } else {
        match settle_result(total, fee_bps) {
            Err(e) => Err(e),
            Ok(s) => match split_result(s.proceeds, shares, sum_of(shares) as u64, Weighting::Proportional) {
                Err(e) => Err(e),
                Ok(v) => Ok((s.fee, v)),
            },
        }
    }
}

/// Computes what a distribution of `total` pays: the platform's fee at
/// `fee_bps`, then each share's floor part of the rest. Nothing is paid
/// beyond `total`; what rounding leaves stays with the payer.
pub fn plan_payout(total: u64, fee_bps: u64, shares: &Vec<u64>, weighting: Weighting) -> (r: Result<
    Payout,
    ErrorCode,
>)
    ensures
        match r {
            Ok(p) => payout_result(total, fee_bps, shares@, weighting) == Ok::<
                (u64, Seq<u64>),
                ErrorCode,
            >((p.fee, p.amounts@)),
            Err(e) => payout_result(total, fee_bps, shares@, weighting) == Err::<
                (u64, Seq<u64>),
                ErrorCode,
            >(e),
        },
        r is Ok ==> r->Ok_0.fee + sum_of(r->Ok_0.amounts@) <= total,
{
    let denominator = match checked_sum(shares) {
        Some(d) => d,
        None => {
            if weighting == Weighting::FixedBps {
                return Err(ErrorCode::InvalidWeights);
            }
            return Err(ErrorCode::ArithmeticOverflow);
        },
    };
    if denominator == 0 {
        return Err(ErrorCode::InvalidWeights);
    }
    if weighting == Weighting::FixedBps && denominator > BASIS_POINTS {
        return Err(ErrorCode::InvalidWeights);
    }
    let s = match settle(total, fee_bps) {
        Ok(s) => s,
        Err(e) => {
            return Err(e);
        },
    };
    match split(s.proceeds, shares, denominator, Weighting::Proportional) {
        Ok(amounts) => {
            proof {
                lemma_split_within_total(s.proceeds, shares@, denominator, Weighting::Proportional);
            }
            Ok(Payout { fee: s.fee, amounts })
        },
        Err(e) => Err(e),
    }
}

/// The legs of a distribution from `payer`: the fee to `platform` first,
/// then each beneficiary's amount in order.
pub open spec fn distribution_legs(
    payer: usize,
    platform: usize,
    fee: u64,
    bs: Seq<Beneficiary>,
    amounts: Seq<u64>,
) -> Seq<Leg> {
    seq![Leg { from: payer, to: platform, amount: fee }] + Seq::new(
        bs.len(),
        |i: int| Leg { from: payer, to: bs[i].account, amount: amounts[i] },
    )
}

/// `nb` and `r` are what distributing `total` from `payer` by `plan`
/// gives on balances `b`: all of it on success, nothing on failure.
pub open spec fn distributed(
    plan: DistributionPlan,
    b: Seq<u64>,
    nb: Seq<u64>,
    payer: usize,
    platform: usize,
    total: u64,
    r: Result<Payout, ErrorCode>,
) -> bool {
    match payout_result(total, plan.fee_bps(), shares_of(plan.beneficiaries()), plan.weighting()) {
        Err(e) => r == Err::<Payout, ErrorCode>(e) && nb == b,
        Ok((fee, amounts)) => match run_legs(
            b,
            distribution_legs(payer, platform, fee, plan.beneficiaries(), amounts),
        ) {
            Err(e) => r == Err::<Payout, ErrorCode>(e) && nb == b,
            Ok(b2) => r is Ok && r->Ok_0.fee == fee && r->Ok_0.amounts@ == amounts && nb == b2,
        },
    }
}

/// An ordered, bounded list of beneficiaries with the platform's fee rate,
/// fixed once made and used for every revenue event of what it is
/// attached to.
pub struct DistributionPlan {
    beneficiaries: Vec<Beneficiary>,
    platform_fee_bps: u64,
    weighting: Weighting,
}

impl DistributionPlan {
    pub closed spec fn beneficiaries(self) -> Seq<Beneficiary> {
        self.beneficiaries@
    }

    pub closed spec fn fee_bps(self) -> u64 {
        self.platform_fee_bps
    }

    pub closed spec fn weighting(self) -> Weighting {
        self.weighting
    }

    /// A plan over `beneficiaries`, in their order. Refused where there
    /// are more than `MAX_BENEFICIARIES` (`CapacityExceeded`), where the
    /// fee passes 100% (`FeeTooHigh`), or, under fixed basis points, where
    /// there is no beneficiary, a share is zero or the shares pass 100%
    /// (`InvalidWeights`).
    pub fn new(beneficiaries: Vec<Beneficiary>, platform_fee_bps: u64, weighting: Weighting) -> (r: Result<
        DistributionPlan,
        ErrorCode,
    >)
        ensures
            beneficiaries@.len() > MAX_BENEFICIARIES ==> r == Err::<DistributionPlan, ErrorCode>(
                ErrorCode::CapacityExceeded,
            ),
            beneficiaries@.len() <= MAX_BENEFICIARIES && platform_fee_bps > BASIS_POINTS ==> r
                == Err::<DistributionPlan, ErrorCode>(ErrorCode::FeeTooHigh),
            beneficiaries@.len() <= MAX_BENEFICIARIES && platform_fee_bps <= BASIS_POINTS ==> (r is Ok
                <==> !(weighting == Weighting::FixedBps && (beneficiaries@.len() == 0 || (exists|i: int|
                0 <= i < beneficiaries@.len() && #[trigger] beneficiaries@[i].share == 0) || sum_of(
                shares_of(beneficiaries@),
            ) > BASIS_POINTS))),
            beneficiaries@.len() <= MAX_BENEFICIARIES && platform_fee_bps <= BASIS_POINTS && r is Err ==> r
                == Err::<DistributionPlan, ErrorCode>(ErrorCode::InvalidWeights),
            r is Ok ==> r->Ok_0.beneficiaries() == beneficiaries@ && r->Ok_0.fee_bps() == platform_fee_bps
                && r->Ok_0.weighting() == weighting,
    {
        if beneficiaries.len() > MAX_BENEFICIARIES {
            return Err(ErrorCode::CapacityExceeded);
        }
        if platform_fee_bps > BASIS_POINTS {
            return Err(ErrorCode::FeeTooHigh);
        }
        if weighting == Weighting::FixedBps {
            if beneficiaries.len() == 0 {
                return Err(ErrorCode::InvalidWeights);
            }
            let shares = share_list(&beneficiaries);
            let mut i: usize = 0;
            while i < shares.len()
                invariant
                    i <= shares.len(),
                    shares@ == shares_of(beneficiaries@),
                    beneficiaries@.len() <= MAX_BENEFICIARIES,
                    platform_fee_bps <= BASIS_POINTS,
                    weighting == Weighting::FixedBps,
                    forall|j: int| 0 <= j < i ==> shares@[j] != 0,
                decreases shares.len() - i,
            {
                if shares[i] == 0 {
                    assert(beneficiaries@[i as int].share == 0);
                    return Err(ErrorCode::InvalidWeights);
                }
                i = i + 1;
            }
            assert forall|j: int| 0 <= j < beneficiaries@.len() implies #[trigger] beneficiaries@[j].share
                != 0 by {
                assert(shares@[j] == beneficiaries@[j].share);
            }
            match checked_sum(&shares) {
                Some(t) => {
                    if t > BASIS_POINTS {
                        return Err(ErrorCode::InvalidWeights);
                    }
                },
                None => {
                    return Err(ErrorCode::InvalidWeights);
                },
            }
        }
        Ok(DistributionPlan { beneficiaries, platform_fee_bps, weighting })
    }

    /// The plan's beneficiaries, in order.
    pub fn beneficiary_list(&self) -> (r: Vec<Beneficiary>)
        ensures
            r@ == self.beneficiaries(),
    {
        let mut v: Vec<Beneficiary> = Vec::new();
        let mut i: usize = 0;
        while i < self.beneficiaries.len()
            invariant
                i <= self.beneficiaries.len(),
                v@ == self.beneficiaries@.subrange(0, i as int),
            decreases self.beneficiaries.len() - i,
        {
            v.push(self.beneficiaries[i]);
            i = i + 1;
        }
        assert(v@ =~= self.beneficiaries@);
        v
    }

    /// Pays out `total` from `payer` by this plan: the fee to `platform`,
    /// then every beneficiary in order. The whole distribution is one unit:
    /// where any payment cannot be made, none is, the fee included.
    pub fn distribute(&self, ledger: &mut Ledger, payer: usize, platform: usize, total: u64) -> (r: Result<
        Payout,
        ErrorCode,
    >)
        ensures
            distributed(*self, old(ledger)@, final(ledger)@, payer, platform, total, r),
    {
        let shares = share_list(&self.beneficiaries);
        let p = match plan_payout(total, self.platform_fee_bps, &shares, self.weighting) {
            Ok(p) => p,
            Err(e) => {
                return Err(e);
            },
        };
        let mut legs: Vec<Leg> = Vec::new();
        legs.push(Leg { from: payer, to: platform, amount: p.fee });
        let mut i: usize = 0;
        while i < self.beneficiaries.len()
            invariant
                i <= self.beneficiaries.len(),
                p.amounts@.len() == self.beneficiaries@.len(),
                legs@ == distribution_legs(
                    payer,
                    platform,
                    p.fee,
                    self.beneficiaries@.subrange(0, i as int),
                    p.amounts@,
                ),
            decreases self.beneficiaries.len() - i,
        {
            legs.push(Leg { from: payer, to: self.beneficiaries[i].account, amount: p.amounts[i] });
            i = i + 1;
            assert(legs@ =~= distribution_legs(
                payer,
                platform,
                p.fee,
                self.beneficiaries@.subrange(0, i as int),
                p.amounts@,
            ));
        }
        assert(self.beneficiaries@.subrange(0, i as int) =~= self.beneficiaries@);
        match ledger.apply(&legs) {
            Ok(()) => Ok(p),
            Err(e) => Err(e),
        }
    }
}

/// The shares of `bs`, in order.
fn share_list(bs: &Vec<Beneficiary>) -> (r: Vec<u64>)
    ensures
        r@ == shares_of(bs@),
{
    let mut v: Vec<u64> = Vec::new();
    let mut i: usize = 0;
    while i < bs.len()
        invariant
            i <= bs.len(),
            v@ == shares_of(bs@.subrange(0, i as int)),
        decreases bs.len() - i,
    {
        v.push(bs[i].share);
        i = i + 1;
        assert(v@ =~= shares_of(bs@.subrange(0, i as int)));
    }
    assert(bs@.subrange(0, i as int) =~= bs@);
    v
}

} // verus!
