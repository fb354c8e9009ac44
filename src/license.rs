use vstd::prelude::*;

use crate::campaign::{days_after, deadline_after};
use crate::error::ErrorCode;
use crate::ledger::{run_legs, Ledger, Leg};
use crate::split::{portion, portion_of, BASIS_POINTS};

verus! {

/// The counter that numbers licenses.
pub struct LicenseManager {
    license_count: u64,
}

/// A right to use a token until `end`, owing `royalty_bps` basis points of
/// each usage amount.
pub struct License {
    id: u64,
    token_id: u64,
    licensee: usize,
    start: i64,
    end: i64,
    royalty_bps: u64,
    active: bool,
    quantity: u64,
}

/// Why usage of `l` at `now` is refused, if it is.
pub open spec fn usage_error(l: License, usage_amount: u64, now: i64) -> Option<ErrorCode> {
    if !l.active() {
        Some(ErrorCode::InvalidState)
    } else if now > l.end() {
        Some(ErrorCode::Expired)
    } else if usage_amount * l.rate() > u64::MAX {
        Some(ErrorCode::ArithmeticOverflow)
    } else {
        None
    }
}

/// The royalty owed on `usage_amount` under `l`.
pub open spec fn royalty_on(l: License, usage_amount: u64) -> u64 {
    portion(usage_amount as int, l.rate() as int, BASIS_POINTS as int) as u64
}

impl LicenseManager {
    pub closed spec fn count(self) -> u64 {
        self.license_count
    }

    /// A manager that has issued no license yet.
    pub fn initialize() -> (r: LicenseManager)
        ensures
            r.count() == 0,
    {
        LicenseManager { license_count: 0 }
    }

    /// Issues license number `count + 1` on `token_id` to `licensee`,
    /// valid from `now` for `duration_days` days. A royalty above 100% is
    /// refused (`InvalidWeights`).
    pub fn issue_license(
        &mut self,
        token_id: u64,
        licensee: usize,
        duration_days: u64,
        royalty_bps: u64,
        quantity: u64,
        now: i64,
    ) -> (r: Result<License, ErrorCode>)
        ensures
            royalty_bps > BASIS_POINTS ==> r == Err::<License, ErrorCode>(ErrorCode::InvalidWeights),
            royalty_bps <= BASIS_POINTS && (old(self).count() == u64::MAX || days_after(now, duration_days)
                > i64::MAX) ==> r == Err::<License, ErrorCode>(ErrorCode::ArithmeticOverflow),
            r is Err ==> final(self).count() == old(self).count(),
            r is Ok <==> royalty_bps <= BASIS_POINTS && old(self).count() < u64::MAX && days_after(
                now,
                duration_days,
            ) <= i64::MAX,
            r is Ok ==> {
                let l = r->Ok_0;
                &&& final(self).count() == old(self).count() + 1
                &&& l.id() == final(self).count()
                &&& l.token_id() == token_id
                &&& l.licensee() == licensee
                &&& l.start() == now
                &&& l.end() == days_after(now, duration_days)
                &&& l.rate() == royalty_bps
                &&& l.active()
                &&& l.quantity() == quantity
            },
    {
        if royalty_bps > BASIS_POINTS {
            return Err(ErrorCode::InvalidWeights);
        }
        if self.license_count == u64::MAX {
            return Err(ErrorCode::ArithmeticOverflow);
        }
        let end = match deadline_after(now, duration_days) {
            Ok(d) => d,
            Err(e) => {
                return Err(e);
            },
        };
        self.license_count = self.license_count + 1;
        Ok(
            License {
                id: self.license_count,
                token_id,
                licensee,
                start: now,
                end,
                royalty_bps,
                active: true,
                quantity,
            },
        )
    }
}

impl License {
    pub closed spec fn id(self) -> u64 {
        self.id
    }

    pub closed spec fn token_id(self) -> u64 {
        self.token_id
    }

    pub closed spec fn licensee(self) -> usize {
        self.licensee
    }

    pub closed spec fn start(self) -> i64 {
        self.start
    }

    pub closed spec fn end(self) -> i64 {
        self.end
    }

    pub closed spec fn rate(self) -> u64 {
        self.royalty_bps
    }

    pub closed spec fn active(self) -> bool {
        self.active
    }

    pub closed spec fn quantity(self) -> u64 {
        self.quantity
    }

    /// The license's number.
    pub fn license_id(&self) -> (r: u64)
        ensures
            r == self.id(),
    {
        self.id
    }

    /// The last moment of validity.
    pub fn end_date(&self) -> (r: i64)
        ensures
            r == self.end(),
    {
        self.end
    }

    /// Records a use worth `usage_amount` at `now` and pays the royalty on
    /// it from `payer` to `recipient`. Returns the royalty paid.
    pub fn record_usage(&self, ledger: &mut Ledger, payer: usize, recipient: usize, usage_amount: u64, now: i64) -> (r:
        Result<u64, ErrorCode>)
        ensures
            match usage_error(*self, usage_amount, now) {
                Some(e) => r == Err::<u64, ErrorCode>(e) && final(ledger)@ == old(ledger)@,
                None => match run_legs(
                    old(ledger)@,
                    seq![Leg { from: payer, to: recipient, amount: royalty_on(*self, usage_amount) }],
                ) {
                    Err(e) => r == Err::<u64, ErrorCode>(e) && final(ledger)@ == old(ledger)@,
                    Ok(nb) => r == Ok::<u64, ErrorCode>(royalty_on(*self, usage_amount)) && final(ledger)@
                        == nb,
                },
            },
    {
        if !self.active {
            return Err(ErrorCode::InvalidState);
        }
        if now > self.end {
            return Err(ErrorCode::Expired);
        }
        let royalty = match portion_of(usage_amount, self.royalty_bps, BASIS_POINTS) {
            Ok(p) => p,
            Err(e) => {
                return Err(e);
            },
        };
        let mut legs: Vec<Leg> = Vec::new();
        legs.push(Leg { from: payer, to: recipient, amount: royalty });
        assert(legs@ =~= seq![Leg { from: payer, to: recipient, amount: royalty_on(*self, usage_amount) }]);
        match ledger.apply(&legs) {
            Ok(()) => Ok(royalty),
            Err(e) => Err(e),
        }
    }
}

} // verus!
