//! The dual-indexed order registry: caller-assigned identifier to order, and
//! venue-assigned identifier to the caller-assigned identifier of the bound
//! order. Both indices stay consistent for every bound order.

use vstd::prelude::*;

use crate::orders::{CoreError, Order, OrderModel, OrderStatus};
use crate::tables::{order_table_view, str_table_view, OrderTable, StrTable};

verus! {

/// The authoritative collection of orders, reachable by caller-assigned
/// identifier and, once bound, by venue-assigned identifier.
pub struct OrdersRegistry {
    pub by_client: OrderTable,
    pub by_venue: StrTable,
}

impl OrdersRegistry {
    /// The caller-assigned index: client identifier to order model.
    pub open spec fn orders(self) -> Map<Seq<char>, OrderModel> {
        order_table_view(self.by_client)
    }

    /// The venue-assigned index: venue identifier to client identifier.
    pub open spec fn venues(self) -> Map<Seq<char>, Seq<char>> {
        str_table_view(self.by_venue)
    }

    /// Well-formedness of the registry.
    ///
    /// Every registered order carries its own non-empty key; an order is
    /// reachable by venue identifier exactly when its venue identifier is
    /// set, that order is past `Creating`, and the two indices agree.
    pub open spec fn wf(self) -> bool {
        &&& forall|c: Seq<char>| #[trigger]
            self.orders().contains_key(c) ==> c.len() > 0 && self.orders()[c].client_order_id
                == c
        &&& forall|v: Seq<char>| #[trigger]
            self.venues().contains_key(v) ==> v.len() > 0 && self.orders().contains_key(
                self.venues()[v],
            ) && self.orders()[self.venues()[v]].exchange_order_id == Some(v)
                && self.orders()[self.venues()[v]].status != OrderStatus::Creating
        &&& forall|c: Seq<char>| #[trigger]
            self.orders().contains_key(c) && self.orders()[c].exchange_order_id is Some
                ==> self.venues().contains_key(self.orders()[c].exchange_order_id->0)
                && self.venues()[self.orders()[c].exchange_order_id->0] == c
    }

    /// An empty registry.
    pub fn new() -> (r: OrdersRegistry)
        ensures
            r.wf(),
            forall|c: Seq<char>| !r.orders().contains_key(c),
            forall|v: Seq<char>| !r.venues().contains_key(v),
    {
        OrdersRegistry { by_client: OrderTable::new(), by_venue: StrTable::new() }
    }

    /// Inserts a provisional order under its caller-assigned identifier.
    ///
    /// Fails with `DuplicateClientId` when that identifier is already
    /// registered; the registry is unchanged in that case.
    pub fn register_provisional(&mut self, order: Order) -> (r: Result<(), CoreError>)
        requires
            old(self).wf(),
            order@.client_order_id.len() > 0,
            order@.status == OrderStatus::Creating,
            order@.exchange_order_id is None,
        ensures
            final(self).wf(),
            r is Ok <==> !old(self).orders().contains_key(order@.client_order_id),
            r is Ok ==> final(self).orders() == old(self).orders().insert(
                order@.client_order_id,
                order@,
            ),
            r is Err ==> r == Err::<(), CoreError>(CoreError::DuplicateClientId) && *final(self)
                == *old(self),
            final(self).venues() == old(self).venues(),
    {
        if self.by_client.contains(&order.client_order_id) {
            Err(CoreError::DuplicateClientId)
        } else {
            let key = order.client_order_id.clone();
            self.by_client.insert(key, order);
            Ok(())
        }
    }

    /// Looks up an order by caller-assigned identifier.
    pub fn lookup_by_client_id(&self, client_order_id: &String) -> (r: Option<Order>)
        ensures
            r is Some <==> self.orders().contains_key(client_order_id@),
            r matches Some(o) ==> o@ == self.orders()[client_order_id@],
    {
        self.by_client.get(client_order_id)
    }

    /// Looks up an order by venue-assigned identifier, through both indices.
    pub fn lookup_by_venue_id(&self, exchange_order_id: &String) -> (r: Option<Order>)
        requires
            self.wf(),
        ensures
            r is Some <==> self.venues().contains_key(exchange_order_id@),
            r matches Some(o) ==> o@ == self.orders()[self.venues()[exchange_order_id@]],
    {
        match self.by_venue.get(exchange_order_id) {
            None => None,
            Some(client_order_id) => self.by_client.get(&client_order_id),
        }
    }

    /// Whether some order is bound to this venue-assigned identifier.
    pub fn contains_venue_id(&self, exchange_order_id: &String) -> (r: bool)
        ensures
            r == self.venues().contains_key(exchange_order_id@),
    {
        self.by_venue.contains(exchange_order_id)
    }

    /// Binds the venue-assigned identifier to a registered order: sets it
    /// on the record and adds the venue-index entry, at most once.
    ///
    /// Fails with `OrderNotFound` for an unknown order and with
    /// `AlreadyBound` when the order already carries a venue identifier or
    /// the venue identifier is already in use; the registry is unchanged in
    /// both cases. An order reachable by venue identifier is never in
    /// `Creating`, so a still-creating order cannot be bound.
    pub fn bind_venue_id(&mut self, client_order_id: &String, exchange_order_id: &String) -> (r:
        Result<(), CoreError>)
        requires
            old(self).wf(),
            exchange_order_id@.len() > 0,
            old(self).orders().contains_key(client_order_id@) ==> old(self).orders()[client_order_id@].status
                != OrderStatus::Creating,
        ensures
            final(self).wf(),
            r is Ok <==> old(self).orders().contains_key(client_order_id@) && old(
                self,
            ).orders()[client_order_id@].exchange_order_id is None && !old(
                self,
            ).venues().contains_key(exchange_order_id@),
            r is Ok ==> final(self).orders() == old(self).orders().insert(
                client_order_id@,
                (OrderModel {
                    exchange_order_id: Some(exchange_order_id@),
                    ..old(self).orders()[client_order_id@]
                }),
            ) && final(self).venues() == old(self).venues().insert(
                exchange_order_id@,
                client_order_id@,
            ),
            !old(self).orders().contains_key(client_order_id@) ==> r == Err::<(), CoreError>(
                CoreError::OrderNotFound,
            ),
            old(self).orders().contains_key(client_order_id@) && (old(
                self,
            ).orders()[client_order_id@].exchange_order_id is Some || old(
                self,
            ).venues().contains_key(exchange_order_id@)) ==> r == Err::<(), CoreError>(
                CoreError::AlreadyBound,
            ),
            r is Err ==> final(self).orders() == old(self).orders() && final(self).venues()
                == old(self).venues(),
    {
        match self.by_client.get(client_order_id) {
            None => Err(CoreError::OrderNotFound),
            Some(order) => {
                if order.exchange_order_id.is_some() || self.by_venue.contains(exchange_order_id)
                 {
                    Err(CoreError::AlreadyBound)
                } else {
                    let mut updated = order;
                    updated.exchange_order_id = Some(exchange_order_id.clone());
                    self.put_order(updated);
                    self.put_venue_link(exchange_order_id, client_order_id);
                    Ok(())
                }
            },
        }
    }

    /// Overwrites the record stored under the given order's own identifier.
    /// The caller re-establishes `wf` across a composite update.
    pub(crate) fn put_order(&mut self, order: Order)
        ensures
            final(self).orders() == old(self).orders().insert(order@.client_order_id, order@),
            final(self).venues() == old(self).venues(),
    {
        let key = order.client_order_id.clone();
        self.by_client.insert(key, order);
    }

    /// Adds a venue-index entry. The caller re-establishes `wf` across a
    /// composite update.
    pub(crate) fn put_venue_link(&mut self, exchange_order_id: &String, client_order_id: &String)
        ensures
            final(self).venues() == old(self).venues().insert(
                exchange_order_id@,
                client_order_id@,
            ),
            final(self).orders() == old(self).orders(),
    {
        self.by_venue.insert(exchange_order_id.clone(), client_order_id.clone());
    }
}

} // verus!
