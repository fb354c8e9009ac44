use vstd::prelude::*;

use crate::distribution::{distributed, shares_of, Beneficiary, DistributionPlan, Payout, MAX_BENEFICIARIES};
use crate::error::ErrorCode;
use crate::ledger::Ledger;
use crate::market::MAX_FEE_BPS;
use crate::split::{sum_of, Weighting, BASIS_POINTS};

verus! {

/// The program-wide settings of editions: the platform's fee rate and the
/// counter that numbers editions.
pub struct ProgramState {
    edition_counter: u64,
    platform_fee_bps: u64,
}

/// A limited music edition and the plan its sale revenue is paid by.
pub struct Edition {
    id: u64,
    max_supply: u64,
    minted: u64,
    active: bool,
    plan: DistributionPlan,
}

/// A list of collaborators an edition accepts: one to `MAX_BENEFICIARIES`
/// of them, each with a share above zero, the shares summing to at most
/// 100%.
pub open spec fn valid_collaborators(c: Seq<Beneficiary>) -> bool {
    &&& 1 <= c.len() <= MAX_BENEFICIARIES
    &&& forall|i: int| 0 <= i < c.len() ==> (#[trigger] c[i]).share > 0
    &&& sum_of(shares_of(c)) <= BASIS_POINTS
}

impl ProgramState {
    /// The platform's fee is within the cap.
    pub open spec fn wf(self) -> bool {
        self.fee_bps() <= MAX_FEE_BPS
    }

    pub closed spec fn counter(self) -> u64 {
        self.edition_counter
    }

    pub closed spec fn fee_bps(self) -> u64 {
        self.platform_fee_bps
    }

    /// Settings with `platform_fee_bps`, capped at `MAX_FEE_BPS`.
    pub fn initialize(platform_fee_bps: u64) -> (r: Result<ProgramState, ErrorCode>)
        ensures
            platform_fee_bps > MAX_FEE_BPS ==> r == Err::<ProgramState, ErrorCode>(
                ErrorCode::FeeTooHigh,
            ),
            platform_fee_bps <= MAX_FEE_BPS ==> r is Ok && r->Ok_0.counter() == 0 && r->Ok_0.fee_bps()
                == platform_fee_bps && r->Ok_0.wf(),
    {
        if platform_fee_bps > MAX_FEE_BPS {
            return Err(ErrorCode::FeeTooHigh);
        }
        Ok(ProgramState { edition_counter: 0, platform_fee_bps })
    }

    /// Creates an edition of at most `max_supply` tokens whose revenue is
    /// shared by `collaborators` in fixed basis points, under the next
    /// number. Refused for a zero supply (`InvalidAmount`), when the
    /// counter is exhausted (`ArithmeticOverflow`), for more than
    /// `MAX_BENEFICIARIES` collaborators (`CapacityExceeded`), and for an
    /// empty list, a zero share or shares over 100% (`InvalidWeights`).
    pub fn create_edition(&mut self, max_supply: u64, collaborators: Vec<Beneficiary>) -> (r: Result<
        Edition,
        ErrorCode,
    >)
        requires
            old(self).wf(),
        ensures
            final(self).wf(),
            final(self).fee_bps() == old(self).fee_bps(),
            max_supply == 0 ==> r == Err::<Edition, ErrorCode>(ErrorCode::InvalidAmount),
            max_supply > 0 && old(self).counter() == u64::MAX ==> r == Err::<Edition, ErrorCode>(
                ErrorCode::ArithmeticOverflow,
            ),
            max_supply > 0 && old(self).counter() < u64::MAX && collaborators@.len() > MAX_BENEFICIARIES
                ==> r == Err::<Edition, ErrorCode>(ErrorCode::CapacityExceeded),
            max_supply > 0 && old(self).counter() < u64::MAX && collaborators@.len() <= MAX_BENEFICIARIES
                && !valid_collaborators(collaborators@) ==> r == Err::<Edition, ErrorCode>(
                ErrorCode::InvalidWeights,
            ),
            r is Ok <==> max_supply > 0 && old(self).counter() < u64::MAX && valid_collaborators(
                collaborators@,
            ),
            r is Err ==> final(self).counter() == old(self).counter(),
            r is Ok ==> {
                let e = r->Ok_0;
                &&& max_supply > 0
                &&& e.id() == old(self).counter()
                &&& final(self).counter() == old(self).counter() + 1
                &&& e.max_supply() == max_supply
                &&& e.minted() == 0
                &&& e.active()
                &&& e.plan().beneficiaries() == collaborators@
                &&& e.plan().fee_bps() == old(self).fee_bps()
                &&& e.plan().weighting() == Weighting::FixedBps
            },
    {
        if max_supply == 0 {
            return Err(ErrorCode::InvalidAmount);
        }
        if self.edition_counter == u64::MAX {
            return Err(ErrorCode::ArithmeticOverflow);
        }
        let ghost c = collaborators@;
        proof {
            if !valid_collaborators(c) && 1 <= c.len() <= MAX_BENEFICIARIES && sum_of(shares_of(c))
                <= BASIS_POINTS {
                let i = choose|i: int| 0 <= i < c.len() && !((#[trigger] c[i]).share > 0);
                assert(c[i].share == 0);
            }
        }
        let plan = match DistributionPlan::new(collaborators, self.platform_fee_bps, Weighting::FixedBps) {
            Ok(p) => p,
            Err(e) => {
                return Err(e);
            },
        };
        let id = self.edition_counter;
        self.edition_counter = self.edition_counter + 1;
        Ok(Edition { id, max_supply, minted: 0, active: true, plan })
    }
}

impl Edition {
    pub closed spec fn id(self) -> u64 {
        self.id
    }

    pub closed spec fn max_supply(self) -> u64 {
        self.max_supply
    }

    pub closed spec fn minted(self) -> u64 {
        self.minted
    }

    pub closed spec fn active(self) -> bool {
        self.active
    }

    pub closed spec fn plan(self) -> DistributionPlan {
        self.plan
    }

    /// The edition's number.
    pub fn edition_id(&self) -> (r: u64)
        ensures
            r == self.id(),
    {
        self.id
    }

    /// Tokens minted so far.
    pub fn minted_count(&self) -> (r: u64)
        ensures
            r == self.minted(),
    {
        self.minted
    }

    /// Mints `amount` more tokens, never past the maximum supply.
    pub fn mint_edition(&mut self, amount: u64) -> (r: Result<(), ErrorCode>)
        ensures
            final(self).id() == old(self).id(),
            final(self).max_supply() == old(self).max_supply(),
            final(self).active() == old(self).active(),
            final(self).plan() == old(self).plan(),
            !old(self).active() ==> r == Err::<(), ErrorCode>(ErrorCode::InvalidState),
            old(self).active() && old(self).minted() + amount > old(self).max_supply() ==> r == Err::<
                (),
                ErrorCode,
            >(ErrorCode::CapacityExceeded),
            r is Ok <==> old(self).active() && old(self).minted() + amount <= old(self).max_supply(),
            r is Ok ==> final(self).minted() == old(self).minted() + amount,
            r is Err ==> final(self).minted() == old(self).minted(),
    {
        if !self.active {
            return Err(ErrorCode::InvalidState);
        }
        if amount > self.max_supply || self.minted > self.max_supply - amount {
            return Err(ErrorCode::CapacityExceeded);
        }
        self.minted = self.minted + amount;
        Ok(())
    }

    /// Pays `amount` of sale revenue from `payer` by the edition's plan:
    /// the platform's fee to `platform`, the rest to the collaborators in
    /// proportion to their basis points, as one unit.
    pub fn distribute_sale_revenue(&self, ledger: &mut Ledger, payer: usize, platform: usize, amount: u64) -> (r:
        Result<Payout, ErrorCode>)
        ensures
            distributed(self.plan(), old(ledger)@, final(ledger)@, payer, platform, amount, r),
    {
        self.plan.distribute(ledger, payer, platform, amount)
    }
}

} // verus!
