//! The order record and its mathematical view.

use vstd::prelude::*;

verus! {

/// Identifier under which an order is kept; assigned by the payer's side.
pub type OrderId = String;

/// A payment record as it is kept in the store.
#[derive(Debug, PartialEq, Eq)]
pub struct Order {
    pub order_id: OrderId,
    pub payer_id: String,
    pub amount: u128,
    pub received_amount: u128,
    pub is_completed: bool,
    pub is_refund: bool,
    pub created_at: u64,
}

/// What an `Order` means: identities as character sequences, amounts as naturals.
pub struct OrderView {
    pub order_id: Seq<char>,
    pub payer_id: Seq<char>,
    pub amount: nat,
    pub received_amount: nat,
    pub is_completed: bool,
    pub is_refund: bool,
    pub created_at: u64,
}

impl View for Order {
    type V = OrderView;

    open spec fn view(&self) -> OrderView {
        OrderView {
            order_id: self.order_id@,
            payer_id: self.payer_id@,
            amount: self.amount as nat,
            received_amount: self.received_amount as nat,
            is_completed: self.is_completed,
            is_refund: self.is_refund,
            created_at: self.created_at,
        }
    }
}

impl Clone for Order {
    fn clone(&self) -> (res: Self)
        ensures
            res@ == self@,
    {
        Order {
            order_id: self.order_id.clone(),
            payer_id: self.payer_id.clone(),
            amount: self.amount,
            received_amount: self.received_amount,
            is_completed: self.is_completed,
            is_refund: self.is_refund,
            created_at: self.created_at,
        }
    }
}

} // verus!
