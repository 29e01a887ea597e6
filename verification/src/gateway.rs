//! What the ledger hands to, and hears back from, the transfer gateway.
//!
//! The gateway moves value to an account and eventually reports one terminal
//! outcome. The ledger never performs a transfer itself: it returns the
//! request, and is later told what became of it.

use vstd::prelude::*;

verus! {

/// A request to move `amount` to the account `receiver_id`.
#[derive(Debug, PartialEq, Eq)]
pub struct Transfer {
    pub receiver_id: String,
    pub amount: u128,
}

/// What a `Transfer` means.
pub struct TransferView {
    pub receiver_id: Seq<char>,
    pub amount: nat,
}

impl View for Transfer {
    type V = TransferView;

    open spec fn view(&self) -> TransferView {
        TransferView { receiver_id: self.receiver_id@, amount: self.amount as nat }
    }
}

/// One result delivered by the gateway for a transfer request.
///
/// `Pending` is never terminal; a well-behaved gateway delivers only
/// `Success` or `Failure`.
#[derive(Clone, Copy, Debug, PartialEq, Eq, Structural)]
pub enum TransferOutcome {
    Pending,
    Success,
    Failure,
}

} // verus!
