//! Laws of the ledger: what holds of every payment, refund and
//! reconciliation, proved over the model that the contract's operations are
//! stated in.

use vstd::prelude::*;
use crate::error::ContractError;
use crate::gateway::{TransferOutcome, TransferView};
use crate::ledger::{
    paid_order, record_valid, refundable, Call, Ledger, PaymentView, RefundView,
};
use crate::order::OrderView;

verus! {

/// A payment whose deposit covers the amount is accepted, returns the
/// overpayment, and leaves under its identifier a record with the amount
/// asked for, the deposit received, completed and not refunded, whatever was
/// kept there before.
pub proof fn law_covered_payment_is_recorded(
    ledger: Ledger,
    order_id: Seq<char>,
    payer_id: Seq<char>,
    amount: nat,
    attached: nat,
    now: u64,
)
    requires
        attached >= amount,
    ensures
        Ledger::pay_order_result(payer_id, amount, attached) matches Ok(payment)
            && payment.change == attached - amount,
        ledger.pay_order(order_id, payer_id, amount, attached, now).get_order(order_id)
            matches Ok(order) && order.order_id == order_id && order.payer_id == payer_id
            && order.amount == amount && order.received_amount == attached && order.is_completed
            && !order.is_refund && order.created_at == now,
{
}

/// An overpayment is returned to the payer by one transfer of exactly the
/// difference; an exact payment asks for no transfer.
pub proof fn law_change_goes_back_to_payer(payer_id: Seq<char>, amount: nat, attached: nat)
    requires
        attached >= amount,
    ensures
        Ledger::pay_order_result(payer_id, amount, attached) matches Ok(payment) && (if attached
            > amount {
            payment.change_transfer == Some(
                TransferView { receiver_id: payer_id, amount: (attached - amount) as nat },
            )
        } else {
            payment.change_transfer is None
        }),
{
}

/// A payment whose deposit falls short is rejected with
/// `InsufficientDeposit` and writes nothing: the ledger is as before, and an
/// identifier that resolved to no record still resolves to none.
pub proof fn law_short_payment_is_rejected(
    ledger: Ledger,
    order_id: Seq<char>,
    payer_id: Seq<char>,
    amount: nat,
    attached: nat,
    now: u64,
)
    requires
        attached < amount,
    ensures
        Ledger::pay_order_result(payer_id, amount, attached) == Err::<PaymentView, ContractError>(
            ContractError::InsufficientDeposit,
        ),
        ledger.pay_order(order_id, payer_id, amount, attached, now) == ledger,
        !ledger.orders.contains_key(order_id) ==> ledger.pay_order(
            order_id,
            payer_id,
            amount,
            attached,
            now,
        ).get_order(order_id) == Err::<OrderView, ContractError>(ContractError::NotFound),
{
}

/// A refund asked for by anyone but the owner is rejected with
/// `Unauthorized`, whether the order exists or not and whatever its state,
/// and changes nothing.
pub proof fn law_refund_is_for_the_owner(
    ledger: Ledger,
    order_id: Seq<char>,
    caller_id: Seq<char>,
)
    requires
        caller_id != ledger.owner_id,
    ensures
        ledger.refund_result(order_id, caller_id) == Err::<RefundView, ContractError>(
            ContractError::Unauthorized,
        ),
        ledger.refund(order_id, caller_id) == ledger,
{
}

/// The owner's refund of an order that does not exist is rejected with
/// `NotFound` and changes nothing.
pub proof fn law_refund_of_missing_order(ledger: Ledger, order_id: Seq<char>)
    requires
        !ledger.orders.contains_key(order_id),
    ensures
        ledger.refund_result(order_id, ledger.owner_id) == Err::<RefundView, ContractError>(
            ContractError::NotFound,
        ),
        ledger.refund(order_id, ledger.owner_id) == ledger,
{
}

/// The owner's refund of an order that is already marked refunded is
/// rejected with `InvalidState` and changes nothing.
pub proof fn law_refund_of_refunded_order(ledger: Ledger, order_id: Seq<char>)
    requires
        ledger.orders.contains_key(order_id),
        ledger.orders[order_id].is_refund,
    ensures
        ledger.refund_result(order_id, ledger.owner_id) == Err::<RefundView, ContractError>(
            ContractError::InvalidState,
        ),
        ledger.refund(order_id, ledger.owner_id) == ledger,
{
}

/// A refund is accepted exactly when the owner asks for it on an order that
/// exists, is completed and is not marked refunded.
pub proof fn law_refund_is_accepted_iff(ledger: Ledger, order_id: Seq<char>, caller_id: Seq<char>)
    ensures
        ledger.refund_result(order_id, caller_id) is Ok <==> caller_id == ledger.owner_id
            && ledger.orders.contains_key(order_id) && refundable(ledger.orders[order_id]),
{
}

/// Once a refund has been accepted, asking for it again before its transfer
/// has been reconciled is rejected with `InvalidState`.
pub proof fn law_refund_is_not_accepted_twice(
    ledger: Ledger,
    order_id: Seq<char>,
    caller_id: Seq<char>,
)
    requires
        ledger.refund_result(order_id, caller_id) is Ok,
    ensures
        ledger.refund(order_id, caller_id).refund_result(order_id, caller_id) == Err::<
            RefundView,
            ContractError,
        >(ContractError::InvalidState),
{
}

/// An accepted refund of an order of amount 0 is final at once: it returns 0,
/// asks for no transfer, and leaves the order marked refunded.
pub proof fn law_refund_of_nothing_settles(
    ledger: Ledger,
    order_id: Seq<char>,
    caller_id: Seq<char>,
)
    requires
        ledger.refund_result(order_id, caller_id) is Ok,
        ledger.orders[order_id].amount == 0,
    ensures
        ledger.refund_result(order_id, caller_id) == Ok::<RefundView, ContractError>(
            RefundView::Settled(0),
        ),
        ledger.refund(order_id, caller_id).get_order(order_id) matches Ok(order)
            && order.is_refund,
{
}

/// An accepted refund of an order of positive amount marks the order
/// refunded at once, and asks for one transfer of the order's amount to its
/// payer, to be reconciled under the order's identifier. Nothing else of the
/// record changes.
pub proof fn law_refund_is_marked_before_transfer(
    ledger: Ledger,
    order_id: Seq<char>,
    caller_id: Seq<char>,
)
    requires
        ledger.refund_result(order_id, caller_id) is Ok,
        ledger.orders[order_id].amount > 0,
    ensures
        ledger.refund_result(order_id, caller_id) == Ok::<RefundView, ContractError>(
            RefundView::Pending {
                transfer: TransferView {
                    receiver_id: ledger.orders[order_id].payer_id,
                    amount: ledger.orders[order_id].amount,
                },
                order_id,
            },
        ),
        ledger.refund(order_id, caller_id).get_order(order_id) == Ok::<OrderView, ContractError>(
            OrderView { is_refund: true, ..ledger.orders[order_id] },
        ),
{
}

/// When the gateway reports that an accepted refund's transfer succeeded, the
/// reconciliation returns 0 and the order stays marked refunded.
pub proof fn law_successful_transfer_confirms_refund(
    ledger: Ledger,
    order_id: Seq<char>,
    caller_id: Seq<char>,
)
    requires
        ledger.refund_result(order_id, caller_id) is Ok,
    ensures
        ({
            let pending = ledger.refund(order_id, caller_id);
            let results = seq![TransferOutcome::Success];
            &&& pending.transfer_callback_result(order_id, results) == Ok::<nat, ContractError>(0)
            &&& pending.transfer_callback(order_id, results) == pending
            &&& pending.get_order(order_id) matches Ok(order) && order.is_refund
        }),
{
}

/// When the gateway reports that an accepted refund's transfer failed, the
/// reconciliation returns the order's amount and takes the refund mark back:
/// the ledger is again what it was before the refund, and the refund can be
/// asked for once more.
pub proof fn law_failed_transfer_rolls_refund_back(
    ledger: Ledger,
    order_id: Seq<char>,
    caller_id: Seq<char>,
)
    requires
        ledger.refund_result(order_id, caller_id) is Ok,
    ensures
        ({
            let pending = ledger.refund(order_id, caller_id);
            let results = seq![TransferOutcome::Failure];
            let settled = pending.transfer_callback(order_id, results);
            &&& pending.transfer_callback_result(order_id, results) == Ok::<nat, ContractError>(
                ledger.orders[order_id].amount,
            )
            &&& settled.get_order(order_id) matches Ok(order) && !order.is_refund
            &&& settled == ledger
            &&& settled.refund_result(order_id, caller_id) is Ok
        }),
{
    let pending = ledger.refund(order_id, caller_id);
    let settled = pending.transfer_callback(order_id, seq![TransferOutcome::Failure]);
    assert(settled.orders =~= ledger.orders);
}

/// A reconciliation that is handed no result, or more than one, is rejected
/// with `ProtocolViolation` and changes nothing.
pub proof fn law_reconciliation_takes_one_result(
    ledger: Ledger,
    order_id: Seq<char>,
    results: Seq<TransferOutcome>,
)
    requires
        results.len() != 1,
    ensures
        ledger.transfer_callback_result(order_id, results) == Err::<nat, ContractError>(
            ContractError::ProtocolViolation,
        ),
        ledger.transfer_callback(order_id, results) == ledger,
{
}

/// A reconciliation whose one result is not terminal is rejected with
/// `ProtocolViolation` and changes nothing.
pub proof fn law_reconciliation_takes_a_terminal_result(ledger: Ledger, order_id: Seq<char>)
    ensures
        ledger.transfer_callback_result(order_id, seq![TransferOutcome::Pending]) == Err::<
            nat,
            ContractError,
        >(ContractError::ProtocolViolation),
        ledger.transfer_callback(order_id, seq![TransferOutcome::Pending]) == ledger,
{
}

/// A reported failure for an order that does not exist is rejected with
/// `NotFound` and changes nothing; a reported success returns 0 and changes
/// nothing, whatever the ledger holds.
pub proof fn law_reconciliation_of_missing_order(ledger: Ledger, order_id: Seq<char>)
    ensures
        !ledger.orders.contains_key(order_id) ==> ledger.transfer_callback_result(
            order_id,
            seq![TransferOutcome::Failure],
        ) == Err::<nat, ContractError>(ContractError::NotFound) && ledger.transfer_callback(
            order_id,
            seq![TransferOutcome::Failure],
        ) == ledger,
        ledger.transfer_callback_result(order_id, seq![TransferOutcome::Success]) == Ok::<
            nat,
            ContractError,
        >(0),
        ledger.transfer_callback(order_id, seq![TransferOutcome::Success]) == ledger,
{
}

/// A rejected call changes nothing, whichever operation it was.
pub proof fn law_rejected_calls_change_nothing(
    ledger: Ledger,
    order_id: Seq<char>,
    party_id: Seq<char>,
    amount: nat,
    attached: nat,
    now: u64,
    results: Seq<TransferOutcome>,
)
    ensures
        Ledger::pay_order_result(party_id, amount, attached) is Err ==> ledger.pay_order(
            order_id,
            party_id,
            amount,
            attached,
            now,
        ) == ledger,
        ledger.refund_result(order_id, party_id) is Err ==> ledger.refund(order_id, party_id)
            == ledger,
        ledger.transfer_callback_result(order_id, results) is Err ==> ledger.transfer_callback(
            order_id,
            results,
        ) == ledger,
{
}

/// A new contract holds no order, so all its records are valid.
pub proof fn law_new_ledger_is_valid(owner_id: Seq<char>)
    ensures
        Ledger::init(owner_id).valid(),
        forall|order_id: Seq<char>|
            #[trigger] Ledger::init(owner_id).get_order(order_id) == Err::<
                OrderView,
                ContractError,
            >(ContractError::NotFound),
{
}

/// A payment keeps the records valid: the record it writes sits under its
/// own identifier, is completed, and has a deposit that covers its amount.
pub proof fn law_pay_order_keeps_records_valid(
    ledger: Ledger,
    order_id: Seq<char>,
    payer_id: Seq<char>,
    amount: nat,
    attached: nat,
    now: u64,
)
    requires
        ledger.valid(),
    ensures
        ledger.pay_order(order_id, payer_id, amount, attached, now).valid(),
{
    if attached >= amount {
        assert(record_valid(order_id, paid_order(order_id, payer_id, amount, attached, now)));
    }
}

/// A refund keeps the records valid.
pub proof fn law_refund_keeps_records_valid(
    ledger: Ledger,
    order_id: Seq<char>,
    caller_id: Seq<char>,
)
    requires
        ledger.valid(),
    ensures
        ledger.refund(order_id, caller_id).valid(),
{
}

/// A reconciliation keeps the records valid.
pub proof fn law_transfer_callback_keeps_records_valid(
    ledger: Ledger,
    order_id: Seq<char>,
    results: Seq<TransferOutcome>,
)
    requires
        ledger.valid(),
    ensures
        ledger.transfer_callback(order_id, results).valid(),
{
}

/// In a valid ledger, whatever `get_order` returns is a record that sits
/// under the identifier asked for, is completed, and has a deposit that
/// covers its amount.
pub proof fn law_valid_ledger_serves_valid_records(ledger: Ledger, order_id: Seq<char>)
    requires
        ledger.valid(),
    ensures
        ledger.get_order(order_id) matches Ok(order) ==> order.order_id == order_id
            && order.is_completed && order.received_amount >= order.amount,
{
}

/// The refund mark is only ever set on a completed order: a record that is
/// marked after a refund and was not marked before is completed.
pub proof fn law_refund_marks_completed_orders_only(
    ledger: Ledger,
    order_id: Seq<char>,
    caller_id: Seq<char>,
    key: Seq<char>,
)
    requires
        ledger.refund(order_id, caller_id).orders.contains_key(key),
        ledger.refund(order_id, caller_id).orders[key].is_refund,
        !(ledger.orders.contains_key(key) && ledger.orders[key].is_refund),
    ensures
        key == order_id,
        ledger.refund(order_id, caller_id).orders[key].is_completed,
        ledger.refund_result(order_id, caller_id) is Ok,
{
}

/// No operation removes a record or changes the owner, and an operation on
/// one identifier leaves the record under every other identifier as it was.
pub proof fn law_operations_touch_one_order(
    ledger: Ledger,
    order_id: Seq<char>,
    party_id: Seq<char>,
    amount: nat,
    attached: nat,
    now: u64,
    results: Seq<TransferOutcome>,
    other_id: Seq<char>,
)
    ensures
        ({
            let paid = ledger.pay_order(order_id, party_id, amount, attached, now);
            let refunded = ledger.refund(order_id, party_id);
            let reconciled = ledger.transfer_callback(order_id, results);
            &&& paid.owner_id == ledger.owner_id
            &&& refunded.owner_id == ledger.owner_id
            &&& reconciled.owner_id == ledger.owner_id
            &&& ledger.orders.contains_key(other_id) ==> paid.orders.contains_key(other_id)
                && refunded.orders.contains_key(other_id) && reconciled.orders.contains_key(
                other_id,
            )
            &&& other_id != order_id ==> paid.get_order(other_id) == ledger.get_order(other_id)
                && refunded.get_order(other_id) == ledger.get_order(other_id)
                && reconciled.get_order(other_id) == ledger.get_order(other_id)
        }),
{
}

/// What an operation on one identifier returns, and the record it leaves
/// there, depend on nothing but the owner and the record under that
/// identifier: two ledgers that agree on these two agree on the outcome.
pub proof fn law_operations_read_one_order(
    first: Ledger,
    second: Ledger,
    order_id: Seq<char>,
    party_id: Seq<char>,
    amount: nat,
    attached: nat,
    now: u64,
    results: Seq<TransferOutcome>,
)
    requires
        first.owner_id == second.owner_id,
        first.get_order(order_id) == second.get_order(order_id),
    ensures
        first.pay_order(order_id, party_id, amount, attached, now).get_order(order_id)
            == second.pay_order(order_id, party_id, amount, attached, now).get_order(order_id),
        first.refund_result(order_id, party_id) == second.refund_result(order_id, party_id),
        first.refund(order_id, party_id).get_order(order_id) == second.refund(
            order_id,
            party_id,
        ).get_order(order_id),
        first.transfer_callback_result(order_id, results) == second.transfer_callback_result(
            order_id,
            results,
        ),
        first.transfer_callback(order_id, results).get_order(order_id)
            == second.transfer_callback(order_id, results).get_order(order_id),
{
}

/// A refund and a reconciliation change nothing of a record but its refund
/// mark: the amount, the deposit, the payer, the time and the completion
/// stay as the payment wrote them.
pub proof fn law_only_the_refund_mark_moves(
    ledger: Ledger,
    order_id: Seq<char>,
    caller_id: Seq<char>,
    results: Seq<TransferOutcome>,
)
    requires
        ledger.orders.contains_key(order_id),
    ensures
        ({
            let before = ledger.orders[order_id];
            let refunded = ledger.refund(order_id, caller_id).orders[order_id];
            let reconciled = ledger.transfer_callback(order_id, results).orders[order_id];
            &&& OrderView { is_refund: before.is_refund, ..refunded } == before
            &&& OrderView { is_refund: before.is_refund, ..reconciled } == before
        }),
{
}

/// A record changes only in three ways: an accepted payment under its
/// identifier replaces it, an accepted refund sets its refund mark, and a
/// reported failure takes the mark back. Any other call, and any call
/// on another identifier, leaves it as it is; so a refund mark, once set,
/// stands until a failure is reported or the order is paid anew.
pub proof fn law_records_change_in_three_ways(ledger: Ledger, order_id: Seq<char>, call: Call)
    requires
        ledger.orders.contains_key(order_id),
    ensures
        ledger.after(call).get_order(order_id) != ledger.get_order(order_id) ==> (match call {
            Call::PayOrder { order_id: paid_id, amount, attached, .. } => paid_id == order_id
                && attached >= amount,
            Call::Refund { order_id: refunded_id, caller_id } => refunded_id == order_id
                && ledger.refund_result(order_id, caller_id) is Ok,
            Call::TransferCallback { order_id: reconciled_id, results } => reconciled_id
                == order_id && results.len() == 1 && results[0] == TransferOutcome::Failure
                && ledger.orders[order_id].is_refund,
        }),
{
    match call {
        Call::TransferCallback { order_id: reconciled_id, results } => {
            if reconciled_id == order_id && results.len() == 1 && results[0]
                == TransferOutcome::Failure && !ledger.orders[order_id].is_refund {
                assert(ledger.after(call).orders =~= ledger.orders);
            }
        },
        _ => {},
    }
}

/// However many calls have been made on a contract, in whatever order and
/// whether accepted or not, its owner is the one it was made with, and every
/// record it holds sits under its own identifier, is completed, and has a
/// deposit that covers its amount.
pub proof fn law_every_reachable_ledger_is_valid(owner_id: Seq<char>, calls: Seq<Call>)
    ensures
        Ledger::init(owner_id).after_all(calls).valid(),
        Ledger::init(owner_id).after_all(calls).owner_id == owner_id,
    decreases calls.len(),
{
    if calls.len() > 0 {
        law_every_reachable_ledger_is_valid(owner_id, calls.drop_last());
        let before = Ledger::init(owner_id).after_all(calls.drop_last());
        match calls.last() {
            Call::PayOrder { order_id, payer_id, amount, attached, now } => {
                law_pay_order_keeps_records_valid(
                    before,
                    order_id,
                    payer_id,
                    amount,
                    attached,
                    now,
                );
            },
            Call::Refund { order_id, caller_id } => {
                law_refund_keeps_records_valid(before, order_id, caller_id);
            },
            Call::TransferCallback { order_id, results } => {
                law_transfer_callback_keeps_records_valid(before, order_id, results);
            },
        }
    }
}

/// An order, once paid, is never removed: whatever calls follow, its
/// identifier still resolves to a record.
pub proof fn law_orders_are_never_removed(ledger: Ledger, calls: Seq<Call>, order_id: Seq<char>)
    requires
        ledger.orders.contains_key(order_id),
    ensures
        ledger.after_all(calls).get_order(order_id) is Ok,
    decreases calls.len(),
{
    if calls.len() > 0 {
        law_orders_are_never_removed(ledger, calls.drop_last(), order_id);
    }
}

} // verus!
