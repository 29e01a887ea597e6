//! The contract: payments, refunds by the owner, and the reconciliation of a
//! refund with what the transfer gateway reports.

use vstd::prelude::*;
use crate::error::{result_view, ContractError};
use crate::gateway::{Transfer, TransferOutcome};
use crate::laws::{
    law_new_ledger_is_valid, law_pay_order_keeps_records_valid, law_refund_keeps_records_valid,
    law_transfer_callback_keeps_records_valid,
};
use crate::ledger::{Ledger, PaymentView, RefundView};
use crate::order::{Order, OrderId};
use crate::store::OrderStore;

verus! {

/// Gas set aside for the call that reports a refund transfer's outcome.
pub const TRANSFER_GAS: u64 = 10_000_000_000_000;

/// What a successful payment reports.
#[derive(Debug, PartialEq, Eq)]
pub struct Payment {
    /// The overpayment: what was attached beyond the amount asked for.
    pub change: u128,
    /// The transfer that returns the overpayment to the payer, if there is
    /// any. Its outcome is not reported back to the ledger.
    pub change_transfer: Option<Transfer>,
}

impl View for Payment {
    type V = PaymentView;

    open spec fn view(&self) -> PaymentView {
        PaymentView {
            change: self.change as nat,
            change_transfer: match self.change_transfer {
                Some(transfer) => Some(transfer@),
                None => None,
            },
        }
    }
}

/// What a successful refund reports.
#[derive(Debug, PartialEq, Eq)]
pub enum Refund {
    /// Nothing had to be moved; the refund is final. Carries the amount, 0.
    Settled(u128),
    /// `transfer` is to be handed to the gateway, and its outcome reported to
    /// `transfer_callback` for `order_id`.
    Pending { transfer: Transfer, order_id: OrderId },
}

impl View for Refund {
    type V = RefundView;

    open spec fn view(&self) -> RefundView {
        match self {
            Refund::Settled(amount) => RefundView::Settled(*amount as nat),
            Refund::Pending { transfer, order_id } => RefundView::Pending {
                transfer: transfer@,
                order_id: order_id@,
            },
        }
    }
}

/// The contract's state: its owner and the orders paid so far.
pub struct EcommerceContract {
    pub owner_id: String,
    pub orders: OrderStore,
}

impl View for EcommerceContract {
    type V = Ledger;

    open spec fn view(&self) -> Ledger {
        Ledger { owner_id: self.owner_id@, orders: self.orders@ }
    }
}

impl EcommerceContract {
    /// A contract owned by `owner_id`, with no orders.
    pub fn new(owner_id: String) -> (res: Self)
        ensures
            res@ == Ledger::init(owner_id@),
            res@.valid(),
    {
        proof {
            law_new_ledger_is_valid(owner_id@);
        }
        EcommerceContract { owner_id, orders: OrderStore::new() }
    }

    /// Records a payment of `order_amount` by `signer_id` under `order_id`,
    /// with `attached_deposit` received at `block_timestamp`.
    ///
    /// A deposit below the amount is rejected and nothing is written. An
    /// accepted payment replaces any record kept under the same identifier.
    pub fn pay_order(
        &mut self,
        order_id: OrderId,
        order_amount: u128,
        attached_deposit: u128,
        signer_id: String,
        block_timestamp: u64,
    ) -> (res: Result<Payment, ContractError>)
        ensures
            result_view(res) == Ledger::pay_order_result(
                signer_id@,
                order_amount as nat,
                attached_deposit as nat,
            ),
            final(self)@ == old(self)@.pay_order(
                order_id@,
                signer_id@,
                order_amount as nat,
                attached_deposit as nat,
                block_timestamp,
            ),
            old(self)@.valid() ==> final(self)@.valid(),
    {
        proof {
            if self@.valid() {
                law_pay_order_keeps_records_valid(
                    self@,
                    order_id@,
                    signer_id@,
                    order_amount as nat,
                    attached_deposit as nat,
                    block_timestamp,
                );
            }
        }
        if attached_deposit < order_amount {
            return Err(ContractError::InsufficientDeposit);
        }
        let order = Order {
            order_id: order_id.clone(),
            payer_id: signer_id.clone(),
            amount: order_amount,
            received_amount: attached_deposit,
            is_completed: true,
            is_refund: false,
            created_at: block_timestamp,
        };
        self.orders.put(order_id, order);
        let change: u128 = attached_deposit - order_amount;
        let change_transfer = if change > 0 {
            Some(Transfer { receiver_id: signer_id, amount: change })
        } else {
            None
        };
        Ok(Payment { change, change_transfer })
    }

    /// A copy of the record kept under `order_id`.
    pub fn get_order(&self, order_id: OrderId) -> (res: Result<Order, ContractError>)
        ensures
            result_view(res) == self@.get_order(order_id@),
    {
        match self.orders.get(order_id.as_str()) {
            Some(order) => Ok(order),
            None => Err(ContractError::NotFound),
        }
    }

    /// Starts the refund of `order_id` on behalf of `caller_id`.
    ///
    /// The order is marked refunded before any value has moved, so that a
    /// second request is turned away while the transfer is under way.
    pub fn refund(&mut self, order_id: OrderId, caller_id: String) -> (res: Result<
        Refund,
        ContractError,
    >)
        ensures
            result_view(res) == old(self)@.refund_result(order_id@, caller_id@),
            final(self)@ == old(self)@.refund(order_id@, caller_id@),
            old(self)@.valid() ==> final(self)@.valid(),
    {
        proof {
            if self@.valid() {
                law_refund_keeps_records_valid(self@, order_id@, caller_id@);
            }
        }
        if !(caller_id == self.owner_id) {
            return Err(ContractError::Unauthorized);
        }
        let mut order = match self.orders.get(order_id.as_str()) {
            Some(order) => order,
            None => {
                return Err(ContractError::NotFound);
            },
        };
        if !(order.is_completed && !order.is_refund) {
            return Err(ContractError::InvalidState);
        }
        order.is_refund = true;
        let amount: u128 = order.amount;
        let receiver_id = order.payer_id.clone();
        self.orders.put(order_id.clone(), order);
        if amount > 0 {
            Ok(Refund::Pending { transfer: Transfer { receiver_id, amount }, order_id })
        } else {
            Ok(Refund::Settled(0))
        }
    }
}

/// The continuation that the transfer gateway resumes once a refund's
/// transfer has come to an end.
pub trait ExtEcommerceContract {
    /// The ledger that the implementor keeps.
    spec fn ledger(&self) -> Ledger;

    /// Reconciles the order `order_id` with `results`, the outcomes that the
    /// gateway delivered for its refund transfer.
    ///
    /// Exactly one terminal outcome is expected. A success leaves the refund
    /// mark standing; a failure takes it back and returns the amount that was
    /// not transferred, so that the refund can be asked for again.
    fn transfer_callback(&mut self, order_id: OrderId, results: Vec<TransferOutcome>) -> (res:
        Result<u128, ContractError>)
        ensures
            match res {
                Ok(amount) => old(self).ledger().transfer_callback_result(order_id@, results@)
                    == Ok::<nat, ContractError>(amount as nat),
                Err(e) => old(self).ledger().transfer_callback_result(order_id@, results@)
                    == Err::<nat, ContractError>(e),
            },
            final(self).ledger() == old(self).ledger().transfer_callback(order_id@, results@),
            old(self).ledger().valid() ==> final(self).ledger().valid(),
    ;
}

impl ExtEcommerceContract for EcommerceContract {
    open spec fn ledger(&self) -> Ledger {
        self@
    }

    fn transfer_callback(&mut self, order_id: OrderId, results: Vec<TransferOutcome>) -> (res:
        Result<u128, ContractError>) {
        proof {
            if self@.valid() {
                law_transfer_callback_keeps_records_valid(self@, order_id@, results@);
            }
        }
        if results.len() != 1 {
            return Err(ContractError::ProtocolViolation);
        }
        match results[0] {
            TransferOutcome::Pending => Err(ContractError::ProtocolViolation),
            TransferOutcome::Success => Ok(0),
            TransferOutcome::Failure => {
                let mut order = match self.orders.get(order_id.as_str()) {
                    Some(order) => order,
                    None => {
                        return Err(ContractError::NotFound);
                    },
                };
                order.is_refund = false;
                let amount: u128 = order.amount;
                self.orders.put(order_id, order);
                Ok(amount)
            },
        }
    }
}

} // verus!
