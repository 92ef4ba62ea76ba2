use vstd::prelude::*;

verus! {

/// Why a ledger operation was rejected. Every failure leaves both records
/// untouched: an operation either returns a complete update or one of these.
#[derive(Clone, Copy, Debug, PartialEq, Eq, Structural)]
pub enum LedgerError {
    /// An unstake asked for more than the position has staked.
    InsufficientFunds,
    /// A caller-supplied value is out of range: a zero or below-minimum
    /// stake, a stake past the pool's cap, a percentage above 100, or a
    /// claim whose elapsed time is not positive.
    InvalidArgument,
    /// A checked addition or the reward computation would exceed the range
    /// of the stored counters.
    Overflow,
    /// A checked subtraction on the pool's total would go below zero.
    Underflow,
    /// The host reported that the currency transfer did not happen.
    TransferFailed,
}

} // verus!
