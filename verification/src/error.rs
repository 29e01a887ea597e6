//! The ways a call on the ledger is rejected.

use vstd::prelude::*;

verus! {

/// Why a call was rejected. A rejected call leaves the ledger as it was.
#[derive(Clone, Copy, Debug, PartialEq, Eq, Structural)]
pub enum ContractError {
    /// The value attached to a payment is less than the amount asked for.
    InsufficientDeposit,
    /// No order is kept under the given identifier.
    NotFound,
    /// A refund was asked for by someone other than the owner.
    Unauthorized,
    /// The order is not completed, or is already marked refunded.
    InvalidState,
    /// The gateway delivered no terminal result, or more than one.
    ProtocolViolation,
}

/// A result with its success value taken by its view.
pub open spec fn result_view<T: View>(res: Result<T, ContractError>) -> Result<
    T::V,
    ContractError,
> {
    match res {
        Ok(value) => Ok(value@),
        Err(e) => Err(e),
    }
}

} // verus!
