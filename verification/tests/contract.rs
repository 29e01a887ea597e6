use ecommerce_contract::contract::{
    EcommerceContract, ExtEcommerceContract, Payment, Refund, TRANSFER_GAS,
};
use ecommerce_contract::error::ContractError;
use ecommerce_contract::gateway::{Transfer, TransferOutcome};
use ecommerce_contract::order::Order;

fn id(text: &str) -> String {
    text.to_owned()
}

/// A contract owned by "owner" in which "alice" has paid 1000 for "o1" with
/// 1500 attached at time 42.
fn paid_contract() -> EcommerceContract {
    let mut contract = EcommerceContract::new(id("owner"));
    contract.pay_order(id("o1"), 1000, 1500, id("alice"), 42).unwrap();
    contract
}

fn order_o1(is_refund: bool) -> Order {
    Order {
        order_id: id("o1"),
        payer_id: id("alice"),
        amount: 1000,
        received_amount: 1500,
        is_completed: true,
        is_refund,
        created_at: 42,
    }
}

#[test]
fn test_pay_order() {
    let alice = id("alice");
    let mut contract = EcommerceContract::new(alice.clone());
    let order_amount: u128 = 1000;

    let paid = contract.pay_order("order_1".to_owned(), order_amount, 1000, alice.clone(), 0);
    assert!(paid.is_ok());

    let order = contract.get_order("order_1".to_owned()).unwrap();

    assert_eq!(order.order_id, "order_1".to_owned());
    assert_eq!(order.amount, order_amount);
    assert_eq!(order.payer_id, alice);
    assert!(order.is_completed);
}

#[test]
fn test_pay_order_with_lack_balance() {
    let alice = id("alice");
    let mut contract = EcommerceContract::new(alice.clone());
    let order_amount: u128 = 2000;

    let paid = contract.pay_order("order_1".to_owned(), order_amount, 1000, alice, 0);
    assert_eq!(paid, Err(ContractError::InsufficientDeposit));
}

#[test]
fn new_contract_has_owner_and_no_orders() {
    let contract = EcommerceContract::new(id("owner"));
    assert_eq!(contract.owner_id, "owner");
    assert_eq!(contract.get_order(id("o1")), Err(ContractError::NotFound));
    assert_eq!(contract.get_order(id("")), Err(ContractError::NotFound));
}

#[test]
fn overpayment_is_recorded_and_change_returned() {
    let mut contract = EcommerceContract::new(id("owner"));
    let paid = contract.pay_order(id("o1"), 1000, 1500, id("alice"), 42);
    assert_eq!(
        paid,
        Ok(Payment {
            change: 500,
            change_transfer: Some(Transfer { receiver_id: id("alice"), amount: 500 }),
        })
    );
    assert_eq!(contract.get_order(id("o1")), Ok(order_o1(false)));
}

#[test]
fn exact_payment_returns_no_change() {
    let mut contract = EcommerceContract::new(id("owner"));
    let paid = contract.pay_order(id("o7"), 250, 250, id("bob"), 9);
    assert_eq!(paid, Ok(Payment { change: 0, change_transfer: None }));
    let order = contract.get_order(id("o7")).unwrap();
    assert_eq!(order.amount, 250);
    assert_eq!(order.received_amount, 250);
    assert!(order.is_completed);
    assert!(!order.is_refund);
    assert_eq!(order.created_at, 9);
    assert_eq!(order.payer_id, "bob");
    assert_eq!(order.order_id, "o7");
}

#[test]
fn payment_of_the_largest_deposit() {
    let mut contract = EcommerceContract::new(id("owner"));
    let paid = contract.pay_order(id("big"), 1, u128::MAX, id("alice"), u64::MAX).unwrap();
    assert_eq!(paid.change, u128::MAX - 1);
    assert_eq!(
        paid.change_transfer,
        Some(Transfer { receiver_id: id("alice"), amount: u128::MAX - 1 })
    );
    let order = contract.get_order(id("big")).unwrap();
    assert_eq!(order.received_amount, u128::MAX);
    assert_eq!(order.created_at, u64::MAX);
}

#[test]
fn short_payment_writes_nothing() {
    let mut contract = EcommerceContract::new(id("owner"));
    let paid = contract.pay_order(id("o2"), 500, 400, id("alice"), 1);
    assert_eq!(paid, Err(ContractError::InsufficientDeposit));
    assert_eq!(contract.get_order(id("o2")), Err(ContractError::NotFound));
}

#[test]
fn short_payment_keeps_the_record_that_was_there() {
    let mut contract = paid_contract();
    let paid = contract.pay_order(id("o1"), 2000, 1999, id("bob"), 77);
    assert_eq!(paid, Err(ContractError::InsufficientDeposit));
    assert_eq!(contract.get_order(id("o1")), Ok(order_o1(false)));
}

#[test]
fn paying_again_replaces_the_record() {
    let mut contract = paid_contract();
    contract.refund(id("o1"), id("owner")).unwrap();
    assert!(contract.get_order(id("o1")).unwrap().is_refund);

    let paid = contract.pay_order(id("o1"), 30, 30, id("bob"), 50);
    assert_eq!(paid, Ok(Payment { change: 0, change_transfer: None }));
    assert_eq!(
        contract.get_order(id("o1")),
        Ok(Order {
            order_id: id("o1"),
            payer_id: id("bob"),
            amount: 30,
            received_amount: 30,
            is_completed: true,
            is_refund: false,
            created_at: 50,
        })
    );
}

#[test]
fn refund_by_a_stranger_is_unauthorized() {
    let mut contract = paid_contract();
    // an order that exists
    assert_eq!(contract.refund(id("o1"), id("alice")), Err(ContractError::Unauthorized));
    assert_eq!(contract.get_order(id("o1")), Ok(order_o1(false)));
    // an order that does not exist
    assert_eq!(contract.refund(id("nope"), id("alice")), Err(ContractError::Unauthorized));
    assert_eq!(contract.get_order(id("nope")), Err(ContractError::NotFound));
    // an order that is already refunded
    contract.refund(id("o1"), id("owner")).unwrap();
    assert_eq!(contract.refund(id("o1"), id("alice")), Err(ContractError::Unauthorized));
    assert_eq!(contract.refund(id("o1"), id("")), Err(ContractError::Unauthorized));
    assert_eq!(contract.get_order(id("o1")), Ok(order_o1(true)));
}

#[test]
fn refund_of_a_missing_order_is_not_found() {
    let mut contract = paid_contract();
    assert_eq!(contract.refund(id("o2"), id("owner")), Err(ContractError::NotFound));
    assert_eq!(contract.get_order(id("o2")), Err(ContractError::NotFound));
    assert_eq!(contract.get_order(id("o1")), Ok(order_o1(false)));
}

#[test]
fn refund_asks_for_a_transfer_to_the_payer() {
    let mut contract = paid_contract();
    let refund = contract.refund(id("o1"), id("owner"));
    assert_eq!(
        refund,
        Ok(Refund::Pending {
            transfer: Transfer { receiver_id: id("alice"), amount: 1000 },
            order_id: id("o1"),
        })
    );
    assert_eq!(contract.get_order(id("o1")), Ok(order_o1(true)));
}

#[test]
fn refund_rolled_back_when_transfer_fails() {
    let mut contract = paid_contract();
    contract.refund(id("o1"), id("owner")).unwrap();
    assert!(contract.get_order(id("o1")).unwrap().is_refund);

    let reconciled = contract.transfer_callback(id("o1"), vec![TransferOutcome::Failure]);
    assert_eq!(reconciled, Ok(1000));
    assert_eq!(contract.get_order(id("o1")), Ok(order_o1(false)));
}

#[test]
fn refund_stands_when_transfer_succeeds() {
    let mut contract = paid_contract();
    contract.refund(id("o1"), id("owner")).unwrap();

    let reconciled = contract.transfer_callback(id("o1"), vec![TransferOutcome::Success]);
    assert_eq!(reconciled, Ok(0));
    assert_eq!(contract.get_order(id("o1")), Ok(order_o1(true)));
}

#[test]
fn second_refund_before_reconciliation_is_rejected() {
    let mut contract = paid_contract();
    assert!(contract.refund(id("o1"), id("owner")).is_ok());
    assert_eq!(contract.refund(id("o1"), id("owner")), Err(ContractError::InvalidState));
    assert_eq!(contract.get_order(id("o1")), Ok(order_o1(true)));
}

#[test]
fn refund_of_a_confirmed_refund_is_rejected() {
    let mut contract = paid_contract();
    contract.refund(id("o1"), id("owner")).unwrap();
    contract.transfer_callback(id("o1"), vec![TransferOutcome::Success]).unwrap();
    assert_eq!(contract.refund(id("o1"), id("owner")), Err(ContractError::InvalidState));
    assert_eq!(contract.get_order(id("o1")), Ok(order_o1(true)));
}

#[test]
fn refund_can_be_asked_again_after_a_failed_transfer() {
    let mut contract = paid_contract();
    contract.refund(id("o1"), id("owner")).unwrap();
    contract.transfer_callback(id("o1"), vec![TransferOutcome::Failure]).unwrap();
    let again = contract.refund(id("o1"), id("owner"));
    assert_eq!(
        again,
        Ok(Refund::Pending {
            transfer: Transfer { receiver_id: id("alice"), amount: 1000 },
            order_id: id("o1"),
        })
    );
    assert!(contract.get_order(id("o1")).unwrap().is_refund);
}

#[test]
fn refund_of_an_order_that_is_not_completed_is_rejected() {
    let mut contract = EcommerceContract::new(id("owner"));
    let mut order = order_o1(false);
    order.is_completed = false;
    contract.orders.put(id("o1"), order);
    assert_eq!(contract.refund(id("o1"), id("owner")), Err(ContractError::InvalidState));
    let kept = contract.get_order(id("o1")).unwrap();
    assert!(!kept.is_completed);
    assert!(!kept.is_refund);
}

#[test]
fn refund_of_amount_zero_settles_at_once() {
    let mut contract = EcommerceContract::new(id("owner"));
    contract.pay_order(id("free"), 0, 0, id("alice"), 3).unwrap();
    let refund = contract.refund(id("free"), id("owner"));
    assert_eq!(refund, Ok(Refund::Settled(0)));
    let order = contract.get_order(id("free")).unwrap();
    assert!(order.is_refund);
    assert!(order.is_completed);
    assert_eq!(order.amount, 0);
    assert_eq!(contract.refund(id("free"), id("owner")), Err(ContractError::InvalidState));
}

#[test]
fn refund_of_amount_zero_with_a_deposit_moves_nothing() {
    let mut contract = EcommerceContract::new(id("owner"));
    let paid = contract.pay_order(id("tip"), 0, 5, id("alice"), 3).unwrap();
    assert_eq!(paid.change, 5);
    assert_eq!(contract.refund(id("tip"), id("owner")), Ok(Refund::Settled(0)));
    assert!(contract.get_order(id("tip")).unwrap().is_refund);
}

#[test]
fn reconciliation_without_a_result_is_a_protocol_violation() {
    let mut contract = paid_contract();
    contract.refund(id("o1"), id("owner")).unwrap();
    assert_eq!(
        contract.transfer_callback(id("o1"), vec![]),
        Err(ContractError::ProtocolViolation)
    );
    assert_eq!(contract.get_order(id("o1")), Ok(order_o1(true)));
}

#[test]
fn reconciliation_with_two_results_is_a_protocol_violation() {
    let mut contract = paid_contract();
    contract.refund(id("o1"), id("owner")).unwrap();
    let two = vec![TransferOutcome::Failure, TransferOutcome::Failure];
    assert_eq!(contract.transfer_callback(id("o1"), two), Err(ContractError::ProtocolViolation));
    let mixed = vec![TransferOutcome::Success, TransferOutcome::Failure, TransferOutcome::Success];
    assert_eq!(contract.transfer_callback(id("o1"), mixed), Err(ContractError::ProtocolViolation));
    assert_eq!(contract.get_order(id("o1")), Ok(order_o1(true)));
}

#[test]
fn reconciliation_with_a_pending_result_is_a_protocol_violation() {
    let mut contract = paid_contract();
    contract.refund(id("o1"), id("owner")).unwrap();
    assert_eq!(
        contract.transfer_callback(id("o1"), vec![TransferOutcome::Pending]),
        Err(ContractError::ProtocolViolation)
    );
    assert_eq!(contract.get_order(id("o1")), Ok(order_o1(true)));
}

#[test]
fn failed_transfer_of_a_missing_order_is_not_found() {
    let mut contract = paid_contract();
    assert_eq!(
        contract.transfer_callback(id("gone"), vec![TransferOutcome::Failure]),
        Err(ContractError::NotFound)
    );
    assert_eq!(contract.get_order(id("gone")), Err(ContractError::NotFound));
    // a success is taken as it is, whatever the identifier
    assert_eq!(contract.transfer_callback(id("gone"), vec![TransferOutcome::Success]), Ok(0));
    assert_eq!(contract.get_order(id("gone")), Err(ContractError::NotFound));
    assert_eq!(contract.get_order(id("o1")), Ok(order_o1(false)));
}

#[test]
fn operations_leave_other_orders_alone() {
    let mut contract = paid_contract();
    contract.pay_order(id("o2"), 20, 25, id("bob"), 43).unwrap();
    let o2 = contract.get_order(id("o2")).unwrap();

    contract.refund(id("o1"), id("owner")).unwrap();
    assert_eq!(contract.get_order(id("o2")), Ok(o2.clone()));
    contract.transfer_callback(id("o1"), vec![TransferOutcome::Failure]).unwrap();
    assert_eq!(contract.get_order(id("o2")), Ok(o2.clone()));
    contract.pay_order(id("o1"), 1, 1, id("carol"), 44).unwrap();
    assert_eq!(contract.get_order(id("o2")), Ok(o2));
    assert_eq!(contract.owner_id, "owner");
}

#[test]
fn every_record_written_by_a_payment_is_complete_and_covered() {
    let mut contract = EcommerceContract::new(id("owner"));
    let cases: Vec<(&str, u128, u128)> =
        vec![("a", 0, 0), ("b", 1, 1), ("c", 10, 11), ("d", 0, u128::MAX)];
    for (name, amount, attached) in cases.clone() {
        contract.pay_order(id(name), amount, attached, id("alice"), 5).unwrap();
    }
    contract.refund(id("c"), id("owner")).unwrap();
    contract.refund(id("b"), id("owner")).unwrap();
    contract.transfer_callback(id("b"), vec![TransferOutcome::Failure]).unwrap();
    for (name, amount, attached) in cases {
        let order = contract.get_order(id(name)).unwrap();
        assert_eq!(order.order_id, name);
        assert!(order.is_completed);
        assert!(order.received_amount >= order.amount);
        assert_eq!(order.amount, amount);
        assert_eq!(order.received_amount, attached);
        assert_eq!(order.is_refund, name == "c");
    }
}

#[test]
fn gas_for_the_reconciliation_call() {
    assert_eq!(TRANSFER_GAS, 10_000_000_000_000);
}
