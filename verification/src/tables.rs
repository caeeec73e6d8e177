//! Concurrent tables backing the registry and the rendezvous slots.
//!
//! Each table owns a `dashmap::DashMap`, the concurrent hash map the rest of
//! the crate builds its indices on. The maps are reached only through the
//! wrappers below, whose contracts state standard map semantics over the
//! tables' contents.

use vstd::prelude::*;

use crate::orders::{Order, OrderModel};

verus! {

#[verifier::external_type_specification]
#[verifier::external_body]
#[verifier::reject_recursive_types(T)]
pub struct ExOneshotSender<T>(tokio::sync::oneshot::Sender<T>);

/// A concurrent map from identifier strings to order records.
#[verifier::external_body]
pub struct OrderTable {
    map: dashmap::DashMap<String, Order>,
}

/// What an `OrderTable` holds: each key's characters mapped to the model of
/// the stored order.
pub uninterp spec fn order_table_view(t: OrderTable) -> Map<Seq<char>, OrderModel>;

impl OrderTable {
    /// Relies on dashmap::DashMap::new: a newly constructed map is empty.
    #[verifier::external_body]
    pub fn new() -> (r: OrderTable)
        ensures
            forall|k: Seq<char>| !order_table_view(r).contains_key(k),
    {
        OrderTable { map: dashmap::DashMap::new() }
    }

    /// Relies on dashmap::DashMap::contains_key.
    #[verifier::external_body]
    pub fn contains(&self, key: &String) -> (r: bool)
        ensures
            r == order_table_view(*self).contains_key(key@),
    {
        self.map.contains_key(key)
    }

    /// Relies on dashmap::DashMap::get; the stored record is cloned out, so
    /// the returned order has the model stored under the key.
    #[verifier::external_body]
    pub fn get(&self, key: &String) -> (r: Option<Order>)
        ensures
            r is Some <==> order_table_view(*self).contains_key(key@),
            r matches Some(o) ==> o@ == order_table_view(*self)[key@],
    {
        self.map.get(key).map(|e| e.value().clone())
    }

    /// Relies on dashmap::DashMap::insert: afterwards the key maps to the
    /// given value; no other key is affected.
    #[verifier::external_body]
    pub fn insert(&mut self, key: String, value: Order)
        ensures
            order_table_view(*final(self)) == order_table_view(*old(self)).insert(
                key@,
                value@,
            ),
    {
        self.map.insert(key, value);
    }
}

/// A concurrent map from identifier strings to identifier strings.
#[verifier::external_body]
pub struct StrTable {
    map: dashmap::DashMap<String, String>,
}

/// What a `StrTable` holds: each key's characters mapped to the stored
/// string's characters.
pub uninterp spec fn str_table_view(t: StrTable) -> Map<Seq<char>, Seq<char>>;

impl StrTable {
    /// Relies on dashmap::DashMap::new: a newly constructed map is empty.
    #[verifier::external_body]
    pub fn new() -> (r: StrTable)
        ensures
            forall|k: Seq<char>| !str_table_view(r).contains_key(k),
    {
        StrTable { map: dashmap::DashMap::new() }
    }

    /// Relies on dashmap::DashMap::contains_key.
    #[verifier::external_body]
    pub fn contains(&self, key: &String) -> (r: bool)
        ensures
            r == str_table_view(*self).contains_key(key@),
    {
        self.map.contains_key(key)
    }

    /// Relies on dashmap::DashMap::get; the stored string is cloned out.
    #[verifier::external_body]
    pub fn get(&self, key: &String) -> (r: Option<String>)
        ensures
            r is Some <==> str_table_view(*self).contains_key(key@),
            r matches Some(s) ==> s@ == str_table_view(*self)[key@],
    {
        self.map.get(key).map(|e| e.value().clone())
    }

    /// Relies on dashmap::DashMap::insert: afterwards the key maps to the
    /// given value; no other key is affected.
    #[verifier::external_body]
    pub fn insert(&mut self, key: String, value: String)
        ensures
            str_table_view(*final(self)) == str_table_view(*old(self)).insert(key@, value@),
    {
        self.map.insert(key, value);
    }
}

/// The rendezvous slots: a concurrent map from caller-assigned order
/// identifiers to single-fire completion signals.
#[verifier::external_body]
pub struct SignalTable {
    map: dashmap::DashMap<String, tokio::sync::oneshot::Sender<()>>,
}

/// Which identifiers currently have a registered slot.
pub uninterp spec fn signal_table_keys(t: SignalTable) -> Set<Seq<char>>;

impl SignalTable {
    /// Relies on dashmap::DashMap::new: a newly constructed map is empty.
    #[verifier::external_body]
    pub fn new() -> (r: SignalTable)
        ensures
            forall|k: Seq<char>| !signal_table_keys(r).contains(k),
    {
        SignalTable { map: dashmap::DashMap::new() }
    }

    /// Relies on dashmap::DashMap::contains_key.
    #[verifier::external_body]
    pub fn has_slot(&self, key: &String) -> (r: bool)
        ensures
            r == signal_table_keys(*self).contains(key@),
    {
        self.map.contains_key(key)
    }

    /// Relies on dashmap::DashMap::entry and Entry::or_insert: afterwards a
    /// slot exists for the key; a slot already present is kept and the new
    /// sender is dropped.
    #[verifier::external_body]
    pub fn register(&mut self, key: &String, tx: tokio::sync::oneshot::Sender<()>)
        ensures
            signal_table_keys(*final(self)) == signal_table_keys(*old(self)).insert(key@),
    {
        self.map.entry(key.clone()).or_insert(tx);
    }

    /// Fire-and-remove as one step, so a slot is consumed exactly once.
    /// Relies on dashmap::DashMap::remove, which takes the slot out
    /// atomically, and on tokio::sync::oneshot::Sender::send, which wakes the
    /// receiver if it is still listening; returns whether a slot existed.
    #[verifier::external_body]
    pub fn fire(&mut self, key: &String) -> (r: bool)
        ensures
            signal_table_keys(*final(self)) == signal_table_keys(*old(self)).remove(key@),
            r == signal_table_keys(*old(self)).contains(key@),
    {
        if let Some((_, tx)) = self.map.remove(key) {
            let _ = tx.send(());
            true
        } else {
            false
        }
    }
}

/// Relies on chrono::Utc::now and chrono::DateTime::timestamp_millis: the
/// wall-clock time as milliseconds since the epoch. Nothing is assumed of
/// the value; callers record it and never branch on it.
#[verifier::external_body]
pub fn now_millis() -> i64 {
    chrono::Utc::now().timestamp_millis()
}

} // verus!
