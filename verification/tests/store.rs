use ecommerce_contract::order::Order;
use ecommerce_contract::store::OrderStore;

fn order(order_id: &str, amount: u128) -> Order {
    Order {
        order_id: order_id.to_owned(),
        payer_id: "alice".to_owned(),
        amount,
        received_amount: amount,
        is_completed: true,
        is_refund: false,
        created_at: 1,
    }
}

#[test]
fn empty_store_resolves_nothing() {
    let store = OrderStore::new();
    assert_eq!(store.get("o1"), None);
    assert_eq!(store.get(""), None);
}

#[test]
fn put_then_get_returns_the_record() {
    let mut store = OrderStore::new();
    store.put("o1".to_owned(), order("o1", 10));
    assert_eq!(store.get("o1"), Some(order("o1", 10)));
    assert_eq!(store.get("o2"), None);
    assert_eq!(store.get("O1"), None);
}

#[test]
fn put_overwrites_without_asking() {
    let mut store = OrderStore::new();
    store.put("o1".to_owned(), order("o1", 10));
    store.put("o2".to_owned(), order("o2", 20));
    store.put("o1".to_owned(), order("o1", 30));
    assert_eq!(store.get("o1"), Some(order("o1", 30)));
    assert_eq!(store.get("o2"), Some(order("o2", 20)));
}

#[test]
fn store_keeps_a_record_under_the_key_it_was_put() {
    let mut store = OrderStore::new();
    store.put("key".to_owned(), order("other", 5));
    assert_eq!(store.get("key"), Some(order("other", 5)));
    assert_eq!(store.get("other"), None);
}

#[test]
fn clone_of_an_order_is_equal_to_it() {
    let mut first = order("o1", 10);
    first.is_refund = true;
    first.created_at = 99;
    let second = first.clone();
    assert_eq!(first, second);
}
