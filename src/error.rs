use vstd::prelude::*;

verus! {

/// Every way an operation of this library can be rejected. A rejected
/// operation changes no state and moves no value.
#[derive(Clone, Copy, Debug, PartialEq, Eq, Structural)]
pub enum ErrorCode {
    /// The operation does not apply in the current lifecycle phase.
    InvalidState,
    /// The caller does not control what the operation would change.
    Unauthorized,
    /// The deadline has passed.
    Expired,
    /// The deadline has not been reached yet.
    NotYetExpired,
    /// An intermediate or final amount does not fit in 64 bits.
    ArithmeticOverflow,
    /// A bounded sequence is already full.
    CapacityExceeded,
    /// A source balance is smaller than the amount to move.
    InsufficientFunds,
    /// Basis-point weights are empty, zero, or sum past their denominator.
    InvalidWeights,
    /// An auction was finalized without any bid.
    NoBids,
    /// A fixed-price operation on an auction, or the reverse.
    WrongMode,
    /// A quantity or amount is zero or larger than what is available.
    InvalidAmount,
    /// A fee rate is above the platform cap.
    FeeTooHigh,
    /// An account number does not name an account of the ledger.
    UnknownAccount,
    /// No record is stored under the given identifier.
    NotFound,
    /// A fixed-price listing without a price cannot be bought.
    NotForSale,
}

} // verus!
