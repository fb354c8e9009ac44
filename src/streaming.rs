use vstd::prelude::*;

use crate::distribution::MAX_BENEFICIARIES;
use crate::error::ErrorCode;
use crate::ledger::{run_legs, Ledger, Leg};
use crate::split::{checked_sum, split, split_result, sum_of, Weighting, BASIS_POINTS};

verus! {

/// How streams turn into pay: every `streams_per_payout` streams of a
/// track earn `payout_amount`.
#[derive(Clone, Copy, Debug, PartialEq, Eq, Structural)]
pub struct StreamingRevenue {
    streams_per_payout: u64,
    payout_amount: u64,
}

/// A track, its stream counter and the collaborators who share its pay.
pub struct Track {
    id: u64,
    stream_count: u64,
    last_payout_at: u64,
    collaborators: Vec<usize>,
    shares: Vec<u64>,
}

/// One payment from `source` to each collaborator, in order.
pub open spec fn collaborator_legs(source: usize, cs: Seq<usize>, amounts: Seq<u64>) -> Seq<Leg> {
    Seq::new(cs.len(), |i: int| Leg { from: source, to: cs[i], amount: amounts[i] })
}

/// What one more stream of `t` does, as the new counter, the new mark of
/// the last payout, the amounts paid and the balances after; or why it is
/// refused.
pub open spec fn stream_outcome(cfg: StreamingRevenue, t: Track, b: Seq<u64>, treasury: usize) -> Result<
    (u64, u64, Option<Seq<u64>>, Seq<u64>),
    ErrorCode,
> {
    if t.count() == u64::MAX {
        Err(ErrorCode::ArithmeticOverflow)
    } else {
        let n = (t.count() + 1) as u64;
        let due = n - t.last_payout() as int;
        if due < cfg.per_payout() {
            Ok((n, t.last_payout(), None, b))
        } else {
            let total = (due / cfg.per_payout() as int) * cfg.amount();
            if total > u64::MAX {
                Err(ErrorCode::ArithmeticOverflow)
            } else {
                match split_result(total as u64, t.shares(), BASIS_POINTS, Weighting::FixedBps) {
                    Err(e) => Err(e),
                    Ok(v) => match run_legs(b, collaborator_legs(treasury, t.collaborators(), v)) {
                        Err(e) => Err(e),
                        Ok(nb) => Ok((n, n, Some(v), nb)),
                    },
                }
            }
        }
    }
}

impl StreamingRevenue {
    pub closed spec fn per_payout(self) -> u64 {
        self.streams_per_payout
    }

    pub closed spec fn amount(self) -> u64 {
        self.payout_amount
    }

    /// A configuration; a payout period of zero streams is refused
    /// (`InvalidAmount`).
    pub fn initialize(streams_per_payout: u64, payout_amount: u64) -> (r: Result<StreamingRevenue, ErrorCode>)
        ensures
            streams_per_payout == 0 ==> r == Err::<StreamingRevenue, ErrorCode>(ErrorCode::InvalidAmount),
            streams_per_payout > 0 ==> r is Ok && r->Ok_0.per_payout() == streams_per_payout
                && r->Ok_0.amount() == payout_amount,
    {
        if streams_per_payout == 0 {
            return Err(ErrorCode::InvalidAmount);
        }
        Ok(StreamingRevenue { streams_per_payout, payout_amount })
    }
}

impl Track {
    pub closed spec fn track_id(self) -> u64 {
        self.id
    }

    pub closed spec fn count(self) -> u64 {
        self.stream_count
    }

    pub closed spec fn last_payout(self) -> u64 {
        self.last_payout_at
    }

    pub closed spec fn collaborators(self) -> Seq<usize> {
        self.collaborators@
    }

    pub closed spec fn shares(self) -> Seq<u64> {
        self.shares@
    }

    /// One share per collaborator, at most `MAX_BENEFICIARIES` of them,
    /// summing to exactly 100%; the last payout is not ahead of the count.
    pub open spec fn wf(self) -> bool {
        &&& self.collaborators().len() == self.shares().len()
        &&& self.shares().len() <= MAX_BENEFICIARIES
        &&& sum_of(self.shares()) == BASIS_POINTS
        &&& self.last_payout() <= self.count()
    }

    /// A track shared by `collaborators` at `shares` basis points each.
    /// Refused where the two lists differ in length or the shares do not
    /// sum to exactly 100% (`InvalidWeights`), or where there are more
    /// than `MAX_BENEFICIARIES` (`CapacityExceeded`).
    pub fn add_track(track_id: u64, collaborators: Vec<usize>, shares: Vec<u64>) -> (r: Result<Track, ErrorCode>)
        ensures
            collaborators@.len() != shares@.len() ==> r == Err::<Track, ErrorCode>(ErrorCode::InvalidWeights),
            collaborators@.len() == shares@.len() && shares@.len() > MAX_BENEFICIARIES ==> r == Err::<
                Track,
                ErrorCode,
            >(ErrorCode::CapacityExceeded),
            r is Ok <==> collaborators@.len() == shares@.len() && shares@.len() <= MAX_BENEFICIARIES
                && sum_of(shares@) == BASIS_POINTS,
            r is Err ==> r->Err_0 == ErrorCode::InvalidWeights || r->Err_0 == ErrorCode::CapacityExceeded,
            r is Ok ==> {
                let t = r->Ok_0;
                &&& t.wf()
                &&& t.track_id() == track_id
                &&& t.count() == 0
                &&& t.last_payout() == 0
                &&& t.collaborators() == collaborators@
                &&& t.shares() == shares@
            },
    {
        if collaborators.len() != shares.len() {
            return Err(ErrorCode::InvalidWeights);
        }
        if shares.len() > MAX_BENEFICIARIES {
            return Err(ErrorCode::CapacityExceeded);
        }
        match checked_sum(&shares) {
            Some(t) => {
                if t != BASIS_POINTS {
                    return Err(ErrorCode::InvalidWeights);
                }
            },
            None => {
                return Err(ErrorCode::InvalidWeights);
            },
        }
        Ok(Track { id: track_id, stream_count: 0, last_payout_at: 0, collaborators, shares })
    }

    /// Streams counted so far.
    pub fn streams(&self) -> (r: u64)
        ensures
            r == self.count(),
    {
        self.stream_count
    }

    /// Counts one stream. Once the streams since the last payout reach a
    /// payout period, pays every full period's amount from `treasury` to
    /// the collaborators by their shares, and returns what each was paid.
    /// The count and the payout are one unit: where the payout fails,
    /// neither happens.
    pub fn record_stream(&mut self, cfg: &StreamingRevenue, ledger: &mut Ledger, treasury: usize) -> (r: Result<
        Option<Vec<u64>>,
        ErrorCode,
    >)
        requires
            old(self).wf(),
            cfg.per_payout() > 0,
        ensures
            final(self).wf(),
            final(self).track_id() == old(self).track_id(),
            final(self).collaborators() == old(self).collaborators(),
            final(self).shares() == old(self).shares(),
            match stream_outcome(*cfg, *old(self), old(ledger)@, treasury) {
                Err(e) => r == Err::<Option<Vec<u64>>, ErrorCode>(e) && final(ledger)@ == old(ledger)@
                    && final(self).count() == old(self).count() && final(self).last_payout() == old(
                    self,
                ).last_payout(),
                Ok((n, last, paid, nb)) => r is Ok && final(self).count() == n && final(self).last_payout()
                    == last && final(ledger)@ == nb && match paid {
                    Some(v) => r->Ok_0 is Some && r->Ok_0->0@ == v,
                    None => r->Ok_0 is None,
                },
            },
    {
        if self.stream_count == u64::MAX {
            return Err(ErrorCode::ArithmeticOverflow);
        }
        let n = self.stream_count + 1;
        let due = n - self.last_payout_at;
        if due < cfg.streams_per_payout {
            self.stream_count = n;
            return Ok(None);
        }
        let periods = due / cfg.streams_per_payout;
        let total = match periods.checked_mul(cfg.payout_amount) {
            Some(t) => t,
            None => {
                return Err(ErrorCode::ArithmeticOverflow);
            },
        };
        let amounts = match split(total, &self.shares, BASIS_POINTS, Weighting::FixedBps) {
            Ok(v) => v,
            Err(e) => {
                return Err(e);
            },
        };
        let mut legs: Vec<Leg> = Vec::new();
        let mut j: usize = 0;
        while j < self.collaborators.len()
            invariant
                j <= self.collaborators.len(),
                amounts@.len() == self.shares@.len(),
                self.collaborators@.len() == self.shares@.len(),
                legs@ == collaborator_legs(treasury, self.collaborators@.subrange(0, j as int), amounts@),
            decreases self.collaborators.len() - j,
        {
            legs.push(Leg { from: treasury, to: self.collaborators[j], amount: amounts[j] });
            j = j + 1;
            assert(legs@ =~= collaborator_legs(treasury, self.collaborators@.subrange(0, j as int), amounts@));
        }
        assert(self.collaborators@.subrange(0, j as int) =~= self.collaborators@);
        match ledger.apply(&legs) {
            Ok(()) => {},
            Err(e) => {
                return Err(e);
            },
        }
        self.stream_count = n;
        self.last_payout_at = n;
        Ok(Some(amounts))
    }
}

} // verus!
