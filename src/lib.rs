//! Custody and payout of value under basis-point splits: a ledger whose
//! transfers land as whole batches, the split of an amount by weights, the
//! settlement of a sale, the lifecycle of fixed-price and auction listings,
//! and the proportional payout of revenue to beneficiaries, campaign
//! investors, licensors and track collaborators.

use vstd::prelude::*;

pub mod campaign;
pub mod distribution;
pub mod edition;
pub mod error;
pub mod escrow;
pub mod ledger;
pub mod license;
pub mod market;
pub mod split;
pub mod streaming;

verus! {

} // verus!
