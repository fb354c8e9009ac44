use vstd::prelude::*;

use crate::error::ErrorCode;
use crate::ledger::Leg;
use crate::split::{portion, portion_of, BASIS_POINTS};

verus! {

/// How a sale amount is divided between the platform and the seller.
#[derive(Clone, Copy, Debug, PartialEq, Eq, Structural)]
pub struct Settlement {
    pub fee: u64,
    pub proceeds: u64,
}

/// The platform's fee on `sale` at `fee_bps` basis points.
pub open spec fn fee_on(sale: u64, fee_bps: u64) -> int {
    portion(sale as int, fee_bps as int, BASIS_POINTS as int)
}

/// What `settle` returns.
pub open spec fn settle_result(sale: u64, fee_bps: u64) -> Result<Settlement, ErrorCode> {
    if fee_bps > BASIS_POINTS {
        Err(ErrorCode::InvalidWeights)
    } else if sale * fee_bps > u64::MAX {
        Err(ErrorCode::ArithmeticOverflow)
    } else {
        Ok(Settlement { fee: fee_on(sale, fee_bps) as u64, proceeds: (sale - fee_on(sale, fee_bps)) as u64 })
    }
}

/// Divides `sale` into the platform fee, rounded down, and what is left
/// for the seller. The two always add up to `sale`.
pub fn settle(sale: u64, fee_bps: u64) -> (r: Result<Settlement, ErrorCode>)
    ensures
        r == settle_result(sale, fee_bps),
        r is Ok ==> r->Ok_0.fee + r->Ok_0.proceeds == sale,
{
    if fee_bps > BASIS_POINTS {
        return Err(ErrorCode::InvalidWeights);
    }
    match portion_of(sale, fee_bps, BASIS_POINTS) {
        Ok(fee) => {
            proof {
                let s = sale as int;
                let b = fee_bps as int;
                assert(s * b / 10000 <= s) by (nonlinear_arith)
                    requires
                        0 <= s,
                        0 <= b <= 10000,
                ;
            }
            Ok(Settlement { fee, proceeds: sale - fee })
        },
        Err(e) => Err(e),
    }
}

/// The three legs of a sale, in order: the units leave escrow for the
/// buyer, the fee goes to the platform, the rest goes to the seller.
pub open spec fn sale_legs(
    units_from: usize,
    units_to: usize,
    quantity: u64,
    payer: usize,
    platform: usize,
    seller: usize,
    s: Settlement,
) -> Seq<Leg> {
    seq![
        Leg { from: units_from, to: units_to, amount: quantity },
        Leg { from: payer, to: platform, amount: s.fee },
        Leg { from: payer, to: seller, amount: s.proceeds },
    ]
}

/// The legs of a sale as a batch for `Ledger::apply`, which moves all of
/// them or none.
pub fn settlement_legs(
    units_from: usize,
    units_to: usize,
    quantity: u64,
    payer: usize,
    platform: usize,
    seller: usize,
    s: Settlement,
) -> (r: Vec<Leg>)
    ensures
        r@ == sale_legs(units_from, units_to, quantity, payer, platform, seller, s),
{
    let mut v: Vec<Leg> = Vec::new();
    v.push(Leg { from: units_from, to: units_to, amount: quantity });
    v.push(Leg { from: payer, to: platform, amount: s.fee });
    v.push(Leg { from: payer, to: seller, amount: s.proceeds });
    assert(v@ =~= sale_legs(units_from, units_to, quantity, payer, platform, seller, s));
    v
}

} // verus!
