//! Error kinds surfaced by the ledger operations.

use vstd::prelude::*;

verus! {

/// Why an operation was refused. Every failure is terminal for the operation
/// that raised it.
#[derive(Clone, Copy, Debug, PartialEq, Eq, Structural)]
pub enum ErrorCode {
    /// Placeholder kind that no ledger operation raises.
    CustomError,
    /// An initialization targeted a record that is already initialized.
    AlreadyInitialized,
    /// The caller is neither the escrow authority nor the record's owner, as
    /// the operation demands.
    NotAuthorized,
    /// A bet named a vault other than the escrow's, or a withdrawal was
    /// attempted without eligibility.
    NotEligible,
    /// The custodial balance cannot cover the amount to subtract.
    Underflow,
    /// A payout grant targeted a participant record that does not exist yet.
    NotInitialized,
    /// Two parallel inputs differ in length; no ledger operation raises it.
    NotSameLength,
    /// An eligible participant has nothing credited to withdraw.
    NoAmountToWithdraw,
}

} // verus!
