//! The order store: a keyed mapping from order identifier to order record.
//!
//! Records are only ever written or overwritten; nothing is removed.

use vstd::prelude::*;
use vstd::hash_map::StringHashMap;
use crate::order::{Order, OrderId, OrderView};

verus! {

/// Owns every order record. Reads hand out copies, so no caller holds on to
/// a record that a later write could make stale.
pub struct OrderStore {
    records: StringHashMap<Order>,
}

impl View for OrderStore {
    type V = Map<Seq<char>, OrderView>;

    closed spec fn view(&self) -> Map<Seq<char>, OrderView> {
        self.records@.map_values(|o: Order| o@)
    }
}

impl OrderStore {
    /// An empty store.
    pub fn new() -> (res: Self)
        ensures
            res@ == Map::<Seq<char>, OrderView>::empty(),
    {
        let res = OrderStore { records: StringHashMap::new() };
        assert(res@ =~= Map::<Seq<char>, OrderView>::empty());
        res
    }

    /// The record kept under `order_id`, if there is one.
    pub fn get(&self, order_id: &str) -> (res: Option<Order>)
        ensures
            res is Some <==> self@.contains_key(order_id@),
            res matches Some(order) ==> order@ == self@[order_id@],
    {
        match self.records.get(order_id) {
            Some(order) => Some(order.clone()),
            None => None,
        }
    }

    /// Writes `order` under `order_id`, replacing whatever was kept there.
    pub fn put(&mut self, order_id: OrderId, order: Order)
        ensures
            final(self)@ == old(self)@.insert(order_id@, order@),
    {
        self.records.insert(order_id, order);
        assert(self@ =~= old(self)@.insert(order_id@, order@));
    }
}

} // verus!
