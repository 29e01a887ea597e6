//! The mathematical model of the contract: what each operation returns and
//! what it does to the ledger, over sequences, naturals and maps.

use vstd::prelude::*;
use crate::error::ContractError;
use crate::gateway::{TransferOutcome, TransferView};
use crate::order::OrderView;

verus! {

/// What a successful payment reports: the overpayment, and the transfer that
/// returns it to the payer when there is any.
pub struct PaymentView {
    pub change: nat,
    pub change_transfer: Option<TransferView>,
}

/// What a successful refund reports.
pub enum RefundView {
    /// Nothing had to be moved; the refund is final. Carries the amount, 0.
    Settled(nat),
    /// A transfer is to be made; its outcome is to be reported for `order_id`.
    Pending { transfer: TransferView, order_id: Seq<char> },
}

/// The record that a payment of `amount` with `attached` deposited creates.
pub open spec fn paid_order(
    order_id: Seq<char>,
    payer_id: Seq<char>,
    amount: nat,
    attached: nat,
    now: u64,
) -> OrderView {
    OrderView {
        order_id,
        payer_id,
        amount,
        received_amount: attached,
        is_completed: true,
        is_refund: false,
        created_at: now,
    }
}

/// Whether a refund may be started on `order`.
pub open spec fn refundable(order: OrderView) -> bool {
    order.is_completed && !order.is_refund
}

/// What holds of every record that a payment wrote under `key`, however
/// often it was refunded and reconciled since.
pub open spec fn record_valid(key: Seq<char>, order: OrderView) -> bool {
    &&& order.order_id == key
    &&& order.is_completed
    &&& order.received_amount >= order.amount
}

/// The state of the contract: who owns it, and the record under each identifier.
pub struct Ledger {
    pub owner_id: Seq<char>,
    pub orders: Map<Seq<char>, OrderView>,
}

impl Ledger {
    /// The ledger of a new contract.
    pub open spec fn init(owner_id: Seq<char>) -> Ledger {
        Ledger { owner_id, orders: Map::empty() }
    }

    /// Every record is one that a payment wrote under its own identifier.
    pub open spec fn valid(self) -> bool {
        forall|key: Seq<char>| #[trigger]
            self.orders.contains_key(key) ==> record_valid(key, self.orders[key])
    }

    /// This ledger with `order` written under `order_id`.
    pub open spec fn with_order(self, order_id: Seq<char>, order: OrderView) -> Ledger {
        Ledger { owner_id: self.owner_id, orders: self.orders.insert(order_id, order) }
    }

    /// What `get_order` returns.
    pub open spec fn get_order(self, order_id: Seq<char>) -> Result<OrderView, ContractError> {
        if self.orders.contains_key(order_id) {
            Ok(self.orders[order_id])
        } else {
            Err(ContractError::NotFound)
        }
    }

    /// What `pay_order` returns. It does not depend on the ledger.
    pub open spec fn pay_order_result(payer_id: Seq<char>, amount: nat, attached: nat) -> Result<
        PaymentView,
        ContractError,
    > {
        if attached < amount {
            Err(ContractError::InsufficientDeposit)
        } else {
            let change = (attached - amount) as nat;
            Ok(
                PaymentView {
                    change,
                    change_transfer: if change > 0 {
                        Some(TransferView { receiver_id: payer_id, amount: change })
                    } else {
                        None
                    },
                },
            )
        }
    }

    /// The ledger after `pay_order`.
    pub open spec fn pay_order(
        self,
        order_id: Seq<char>,
        payer_id: Seq<char>,
        amount: nat,
        attached: nat,
        now: u64,
    ) -> Ledger {
        if attached < amount {
            self
        } else {
            self.with_order(order_id, paid_order(order_id, payer_id, amount, attached, now))
        }
    }

    /// Why `refund` is rejected, if it is. The conditions are tried in this
    /// order: the caller, the order's existence, the order's state.
    pub open spec fn refund_error(self, order_id: Seq<char>, caller_id: Seq<char>) -> Option<
        ContractError,
    > {
        if caller_id != self.owner_id {
            Some(ContractError::Unauthorized)
        } else if !self.orders.contains_key(order_id) {
            Some(ContractError::NotFound)
        } else if !refundable(self.orders[order_id]) {
            Some(ContractError::InvalidState)
        } else {
            None
        }
    }

    /// What `refund` returns.
    pub open spec fn refund_result(self, order_id: Seq<char>, caller_id: Seq<char>) -> Result<
        RefundView,
        ContractError,
    > {
        match self.refund_error(order_id, caller_id) {
            Some(e) => Err(e),
            None => {
                let order = self.orders[order_id];
                if order.amount > 0 {
                    Ok(
                        RefundView::Pending {
                            transfer: TransferView {
                                receiver_id: order.payer_id,
                                amount: order.amount,
                            },
                            order_id,
                        },
                    )
                } else {
                    Ok(RefundView::Settled(0))
                }
            },
        }
    }

    /// The ledger after `refund`: an accepted refund marks the order refunded
    /// at once, before any transfer has been made.
    pub open spec fn refund(self, order_id: Seq<char>, caller_id: Seq<char>) -> Ledger {
        if self.refund_error(order_id, caller_id) is Some {
            self
        } else {
            self.with_order(order_id, OrderView { is_refund: true, ..self.orders[order_id] })
        }
    }

    /// What `transfer_callback` returns.
    pub open spec fn transfer_callback_result(
        self,
        order_id: Seq<char>,
        results: Seq<TransferOutcome>,
    ) -> Result<nat, ContractError> {
        if results.len() != 1 {
            Err(ContractError::ProtocolViolation)
        } else {
            match results[0] {
                TransferOutcome::Pending => Err(ContractError::ProtocolViolation),
                TransferOutcome::Success => Ok(0),
                TransferOutcome::Failure => {
                    if self.orders.contains_key(order_id) {
                        Ok(self.orders[order_id].amount)
                    } else {
                        Err(ContractError::NotFound)
                    }
                },
            }
        }
    }

    /// The ledger after `transfer_callback`: only a reported failure on an
    /// order that exists changes anything, and it takes the refund mark back.
    pub open spec fn transfer_callback(
        self,
        order_id: Seq<char>,
        results: Seq<TransferOutcome>,
    ) -> Ledger {
        if results.len() == 1 && results[0] == TransferOutcome::Failure
            && self.orders.contains_key(order_id) {
            self.with_order(order_id, OrderView { is_refund: false, ..self.orders[order_id] })
        } else {
            self
        }
    }

    /// The ledger after `call`.
    pub open spec fn after(self, call: Call) -> Ledger {
        match call {
            Call::PayOrder { order_id, payer_id, amount, attached, now } => self.pay_order(
                order_id,
                payer_id,
                amount,
                attached,
                now,
            ),
            Call::Refund { order_id, caller_id } => self.refund(order_id, caller_id),
            Call::TransferCallback { order_id, results } => self.transfer_callback(
                order_id,
                results,
            ),
        }
    }

    /// The ledger after `calls`, made one after the other.
    pub open spec fn after_all(self, calls: Seq<Call>) -> Ledger
        decreases calls.len(),
    {
        if calls.len() == 0 {
            self
        } else {
            self.after_all(calls.drop_last()).after(calls.last())
        }
    }
}

/// One call on the contract with its arguments, accepted or not.
pub enum Call {
    PayOrder { order_id: Seq<char>, payer_id: Seq<char>, amount: nat, attached: nat, now: u64 },
    Refund { order_id: Seq<char>, caller_id: Seq<char> },
    TransferCallback { order_id: Seq<char>, results: Seq<TransferOutcome> },
}

} // verus!
