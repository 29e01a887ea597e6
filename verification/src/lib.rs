//! A ledger of order payments and of refunds issued by the contract's owner.
//!
//! A payment writes an order record; a refund marks the record refunded at
//! once and asks for a transfer back to the payer; when the transfer gateway
//! reports what became of the transfer, the mark stands or is taken back.
//!
//! The ledger performs no transfer and reads no clock or caller itself: each
//! operation takes what it needs as arguments and returns what is to be done.
//!
//! - `order`: the order record.
//! - `store`: the keyed store that owns the records.
//! - `gateway`: transfer requests and the outcomes reported for them.
//! - `error`: why a call is rejected.
//! - `ledger`: the mathematical model that the operations are stated in.
//! - `contract`: the operations themselves.
//! - `laws`: what holds of every payment, refund and reconciliation.

pub mod contract;
pub mod error;
pub mod gateway;
pub mod laws;
pub mod ledger;
pub mod order;
pub mod store;
