use vstd::prelude::*;

use crate::error::ErrorCode;
use crate::split::{lemma_sum_update, sum_of};

verus! {

/// One movement of `amount` from account `from` to account `to`.
#[derive(Clone, Copy, Debug, PartialEq, Eq, Structural)]
pub struct Leg {
    pub from: usize,
    pub to: usize,
    pub amount: u64,
}

/// Why `l` cannot be applied to the balances `b`, if it cannot.
pub open spec fn leg_error(b: Seq<u64>, l: Leg) -> Option<ErrorCode> {
    if l.from >= b.len() || l.to >= b.len() {
        Some(ErrorCode::UnknownAccount)
    } else if b[l.from as int] < l.amount {
        Some(ErrorCode::InsufficientFunds)
    } else if l.from != l.to && b[l.to as int] + l.amount > u64::MAX {
        Some(ErrorCode::ArithmeticOverflow)
    } else {
        None
    }
}

/// The balances after `l` moved its amount.
pub open spec fn after_leg(b: Seq<u64>, l: Leg) -> Seq<u64> {
    if l.from == l.to {
        b
    } else {
        b.update(l.from as int, (b[l.from as int] - l.amount) as u64).update(
            l.to as int,
            (b[l.to as int] + l.amount) as u64,
        )
    }
}

/// The balances after every leg of `legs` was applied in order, or the
/// error of the first leg that cannot be applied.
pub open spec fn run_legs(b: Seq<u64>, legs: Seq<Leg>) -> Result<Seq<u64>, ErrorCode>
    decreases legs.len(),
{
    if legs.len() == 0 {
        Ok(b)
    } else {
        match run_legs(b, legs.drop_last()) {
            Ok(m) => match leg_error(m, legs.last()) {
                Some(e) => Err(e),
                None => Ok(after_leg(m, legs.last())),
            },
            Err(e) => Err(e),
        }
    }
}

/// Moving value never creates or destroys any: where a batch of legs
/// applies, the balances after it sum to what they summed to before.
pub proof fn lemma_run_legs_conserves(b: Seq<u64>, legs: Seq<Leg>)
    requires
        run_legs(b, legs) is Ok,
    ensures
        sum_of(run_legs(b, legs)->Ok_0) == sum_of(b),
    decreases legs.len(),
{
    if legs.len() > 0 {
        lemma_run_legs_conserves(b, legs.drop_last());
        let m = run_legs(b, legs.drop_last())->Ok_0;
        let l = legs.last();
        if l.from != l.to {
            let m1 = m.update(l.from as int, (m[l.from as int] - l.amount) as u64);
            lemma_sum_update(m, l.from as int, (m[l.from as int] - l.amount) as u64);
            lemma_sum_update(m1, l.to as int, (m[l.to as int] + l.amount) as u64);
        }
    }
}

proof fn lemma_run_legs_step(b: Seq<u64>, legs: Seq<Leg>, i: int)
    requires
        0 <= i < legs.len(),
    ensures
        run_legs(b, legs.subrange(0, i + 1)) == (match run_legs(b, legs.subrange(0, i)) {
            Ok(m) => match leg_error(m, legs[i]) {
                Some(e) => Err(e),
                None => Ok(after_leg(m, legs[i])),
            },
            Err(e) => Err(e),
        }),
{
    assert(legs.subrange(0, i + 1).drop_last() =~= legs.subrange(0, i));
}

proof fn lemma_run_legs_err_persists(b: Seq<u64>, legs: Seq<Leg>, k: int, j: int)
    requires
        0 <= k <= j <= legs.len(),
        run_legs(b, legs.subrange(0, k)) is Err,
    ensures
        run_legs(b, legs.subrange(0, j)) == run_legs(b, legs.subrange(0, k)),
    decreases j - k,
{
    if j > k {
        lemma_run_legs_err_persists(b, legs, k, j - 1);
        lemma_run_legs_step(b, legs, j - 1);
    }
}

/// The balances of a set of accounts, each named by its position.
///
/// Value only moves through `apply`, which takes a whole batch of legs and
/// writes all of them or none: a failure part-way through a settlement can
/// never leave value stranded between its legs.
pub struct Ledger {
    balances: Vec<u64>,
}

impl View for Ledger {
    type V = Seq<u64>;

    closed spec fn view(&self) -> Seq<u64> {
        self.balances@
    }
}

fn leg_check(b: &Vec<u64>, l: Leg) -> (r: Option<ErrorCode>)
    ensures
        r == leg_error(b@, l),
{
    if l.from >= b.len() || l.to >= b.len() {
        Some(ErrorCode::UnknownAccount)
    } else if b[l.from] < l.amount {
        Some(ErrorCode::InsufficientFunds)
    } else if l.from != l.to && b[l.to] > u64::MAX - l.amount {
        Some(ErrorCode::ArithmeticOverflow)
    } else {
        None
    }
}

fn apply_leg(b: &mut Vec<u64>, l: Leg)
    requires
        leg_error(old(b)@, l) is None,
    ensures
        final(b)@ == after_leg(old(b)@, l),
{
    if l.from != l.to {
        let f = b[l.from] - l.amount;
        b.set(l.from, f);
        let t = b[l.to] + l.amount;
        b.set(l.to, t);
    }
}

impl Ledger {
    /// A ledger without accounts.
    pub fn new() -> (r: Ledger)
        ensures
            r@ == Seq::<u64>::empty(),
    {
        Ledger { balances: Vec::new() }
    }

    /// Opens an account holding `initial` and returns its number.
    pub fn open_account(&mut self, initial: u64) -> (r: usize)
        requires
            old(self)@.len() < usize::MAX,
        ensures
            r == old(self)@.len(),
            final(self)@ == old(self)@.push(initial),
    {
        let r = self.balances.len();
        self.balances.push(initial);
        r
    }

    /// The number of accounts.
    pub fn len(&self) -> (r: usize)
        ensures
            r == self@.len(),
    {
        self.balances.len()
    }

    /// The balance of `account`, if there is such an account.
    pub fn balance(&self, account: usize) -> (r: Option<u64>)
        ensures
            account < self@.len() ==> r == Some(self@[account as int]),
            account >= self@.len() ==> r is None,
    {
        if account < self.balances.len() {
            Some(self.balances[account])
        } else {
            None
        }
    }

    /// Applies `legs` in order as one unit. On success the balances are
    /// those `run_legs` gives; on failure nothing changed and the error is
    /// that of the first leg that could not be applied.
    pub fn apply(&mut self, legs: &Vec<Leg>) -> (r: Result<(), ErrorCode>)
        ensures
            match run_legs(old(self)@, legs@) {
                Ok(nb) => r is Ok && final(self)@ == nb,
                Err(e) => r == Err::<(), ErrorCode>(e) && final(self)@ == old(self)@,
            },
    {
        let mut work: Vec<u64> = Vec::new();
        let mut i: usize = 0;
        while i < self.balances.len()
            invariant
                i <= self.balances.len(),
                work@ == self.balances@.subrange(0, i as int),
            decreases self.balances.len() - i,
        {
            work.push(self.balances[i]);
            i = i + 1;
        }
        assert(work@ =~= self.balances@);
        assert(legs@.subrange(0, 0) =~= Seq::<Leg>::empty());
        let mut k: usize = 0;
        while k < legs.len()
            invariant
                k <= legs.len(),
                self@ == old(self)@,
                run_legs(old(self)@, legs@.subrange(0, k as int)) == Ok::<Seq<u64>, ErrorCode>(
                    work@,
                ),
            decreases legs.len() - k,
        {
            let l = legs[k];
            proof {
                lemma_run_legs_step(old(self)@, legs@, k as int);
            }
            match leg_check(&work, l) {
                Some(e) => {
                    proof {
                        lemma_run_legs_err_persists(
                            old(self)@,
                            legs@,
                            k + 1,
                            legs@.len() as int,
                        );
                        assert(legs@.subrange(0, legs@.len() as int) =~= legs@);
                    }
                    return Err(e);
                },
                None => {
                    apply_leg(&mut work, l);
                },
            }
            k = k + 1;
        }
        assert(legs@.subrange(0, legs@.len() as int) =~= legs@);
        self.balances = work;
        Ok(())
    }
}

} // verus!
