//! The exchange facade: the order registry, the rendezvous slots, the event
//! log, and the reconciliation handlers that advance each order's state
//! machine exactly once per logical transition, however notifications
//! arrive.

use vstd::prelude::*;

use crate::orders::{
    ClientOrderId, CoreError, CreateOrderResult, EventSourceType, ExchangeError,
    ExchangeErrorType,
    ExchangeOrderId, Order, OrderCreating, OrderEvent, OrderEventModel, OrderEventType,
    OrderModel, OrderStatus, RequestResult,
};
use crate::cancellation::{node_cancelled, TokenTree};
use crate::registry::OrdersRegistry;
use crate::symbols::Symbol;
use crate::tables::{now_millis, signal_table_keys, str_table_view, SignalTable, StrTable};

verus! {

/// The mathematical model of the order-flow state: both registry indices,
/// the registered rendezvous slots, and the published events.
pub struct ExchangeModel {
    pub orders: Map<Seq<char>, OrderModel>,
    pub venues: Map<Seq<char>, Seq<char>>,
    pub slots: Set<Seq<char>>,
    pub events: Seq<OrderEventModel>,
}

/// How the success reconciliation handler classifies a notification.
#[derive(Clone, Copy, Debug, PartialEq, Eq, Structural)]
pub enum SucceedVerdict {
    /// An identifier was empty; fatal to this notification only.
    Malformed,
    /// The order is not in the registry; absorbed as a no-op.
    Absent,
    /// The venue identifier is already bound: duplicate delivery, no-op.
    DuplicateVenue,
    /// The authoritative transition `Creating -> Created` is applied.
    Transitioned,
    /// The order already failed to create: the sources disagree.
    Contradiction,
    /// The order is already past creation: duplicate delivery, no-op.
    Duplicate,
}

/// How the failure reconciliation handler classifies a notification.
#[derive(Clone, Copy, Debug, PartialEq, Eq, Structural)]
pub enum FailVerdict {
    /// The client identifier was empty; fatal to this notification only.
    Malformed,
    /// The order is not in the registry; surfaced to the caller.
    NotFound,
    /// The authoritative transition `Creating -> FailedToCreate` is applied.
    Applied,
    /// The order already failed to create: duplicate delivery, no-op.
    Duplicate,
    /// The order is already past creation: surfaced as a protocol violation.
    Unexpected,
}

/// The model of an order after the transition `Creating -> Created`.
pub open spec fn created_order_model(
    o: OrderModel,
    exchange_order_id: Seq<char>,
    source_type: EventSourceType,
) -> OrderModel {
    OrderModel {
        status: OrderStatus::Created,
        exchange_order_id: Some(exchange_order_id),
        creation_event_source_type: Some(source_type),
        ..o
    }
}

/// The model of an order after the transition `Creating -> FailedToCreate`.
pub open spec fn failed_order_model(
    o: OrderModel,
    error_type: ExchangeErrorType,
    message: Seq<char>,
) -> OrderModel {
    OrderModel {
        status: OrderStatus::FailedToCreate,
        last_creation_error_type: Some(error_type),
        last_creation_error_message: message,
        ..o
    }
}

/// The verdict of the success reconciliation handler on the given state.
pub open spec fn succeed_verdict(
    m: ExchangeModel,
    client_order_id: Seq<char>,
    exchange_order_id: Seq<char>,
) -> SucceedVerdict {
    if client_order_id.len() == 0 || exchange_order_id.len() == 0 {
        SucceedVerdict::Malformed
    } else if !m.orders.contains_key(client_order_id) {
        SucceedVerdict::Absent
    } else if m.orders[client_order_id].status == OrderStatus::Creating {
        if m.venues.contains_key(exchange_order_id) {
            SucceedVerdict::DuplicateVenue
        } else {
            SucceedVerdict::Transitioned
        }
    } else if m.orders[client_order_id].status == OrderStatus::FailedToCreate {
        SucceedVerdict::Contradiction
    } else {
        SucceedVerdict::Duplicate
    }
}

/// The state after the success reconciliation handler ran: on the
/// authoritative transition the order becomes `Created`, the venue index
/// gains the binding, the rendezvous slot is consumed and one
/// `CreateOrderSucceeded` event is published; on every other verdict the
/// state is unchanged.
pub open spec fn succeed_model(
    m: ExchangeModel,
    client_order_id: Seq<char>,
    exchange_order_id: Seq<char>,
    source_type: EventSourceType,
) -> ExchangeModel {
    if succeed_verdict(m, client_order_id, exchange_order_id) == SucceedVerdict::Transitioned {
        ExchangeModel {
            orders: m.orders.insert(
                client_order_id,
                created_order_model(m.orders[client_order_id], exchange_order_id, source_type),
            ),
            venues: m.venues.insert(exchange_order_id, client_order_id),
            slots: m.slots.remove(client_order_id),
            events: m.events.push(
                OrderEventModel {
                    client_order_id: client_order_id,
                    event_type: OrderEventType::CreateOrderSucceeded,
                },
            ),
        }
    } else {
        m
    }
}

/// The verdict of the failure reconciliation handler on the given state.
pub open spec fn fail_verdict(m: ExchangeModel, client_order_id: Seq<char>) -> FailVerdict {
    if client_order_id.len() == 0 {
        FailVerdict::Malformed
    } else if !m.orders.contains_key(client_order_id) {
        FailVerdict::NotFound
    } else if m.orders[client_order_id].status == OrderStatus::Creating {
        FailVerdict::Applied
    } else if m.orders[client_order_id].status == OrderStatus::FailedToCreate {
        FailVerdict::Duplicate
    } else {
        FailVerdict::Unexpected
    }
}

/// The state after the failure reconciliation handler ran: on the
/// authoritative transition the order becomes `FailedToCreate` with the
/// error recorded and one `CreateOrderFailed` event is published; on every
/// other verdict the state is unchanged.
pub open spec fn fail_model(
    m: ExchangeModel,
    client_order_id: Seq<char>,
    error_type: ExchangeErrorType,
    message: Seq<char>,
) -> ExchangeModel {
    if fail_verdict(m, client_order_id) == FailVerdict::Applied {
        ExchangeModel {
            orders: m.orders.insert(
                client_order_id,
                failed_order_model(m.orders[client_order_id], error_type, message),
            ),
            venues: m.venues,
            slots: m.slots,
            events: m.events.push(
                OrderEventModel {
                    client_order_id: client_order_id,
                    event_type: OrderEventType::CreateOrderFailed,
                },
            ),
        }
    } else {
        m
    }
}

/// Whether a waiter for "order created" may return at once: the order is
/// absent or already out of `Creating`.
pub open spec fn wait_fast_path(m: ExchangeModel, client_order_id: Seq<char>) -> bool {
    !(m.orders.contains_key(client_order_id) && m.orders[client_order_id].status
        == OrderStatus::Creating)
}

/// What a call to the blocking-wait preparation decided.
#[derive(Clone, Copy, Debug, PartialEq, Eq, Structural)]
pub enum WaitStart {
    /// The order had already resolved (or is unknown); no slot was
    /// registered and the caller returns at once.
    AlreadyResolved,
    /// The cancellation token had already fired; no slot was registered.
    Cancelled,
    /// A slot was registered, then the status recheck saw a resolution that
    /// landed in between; the slot was consumed again and the caller
    /// returns at once.
    ResolvedWhileRegistering,
    /// A slot stands registered; the caller now awaits the signal or the
    /// cancellation token, whichever fires first.
    Waiting,
}

/// The exchange facade: the authoritative order registry, the rendezvous
/// slots, the published event log, and the venue's instrument metadata.
pub struct Exchange {
    pub exchange_account_id: String,
    pub registry: OrdersRegistry,
    pub orders_created_events: SignalTable,
    pub events: Vec<OrderEvent>,
    pub symbols: Vec<Symbol>,
    pub currencies: Vec<String>,
    pub supported_symbols: Vec<Symbol>,
    pub supported_currencies: StrTable,
}

impl Exchange {
    /// The order-flow model of this exchange.
    pub open spec fn flow(self) -> ExchangeModel {
        ExchangeModel {
            orders: self.registry.orders(),
            venues: self.registry.venues(),
            slots: signal_table_keys(self.orders_created_events),
            events: self.events@.map_values(|e: OrderEvent| e@),
        }
    }

    /// Well-formedness: the registry's two indices are consistent.
    pub open spec fn wf(self) -> bool {
        self.registry.wf()
    }

    /// The instrument metadata of this exchange, as one value: the symbols,
    /// the currency list, the supported symbols and the supported-currency
    /// map. The order-flow operations leave it untouched.
    pub open spec fn meta(self) -> (
        Seq<Symbol>,
        Seq<String>,
        Seq<Symbol>,
        Map<Seq<char>, Seq<char>>,
    ) {
        (
            self.symbols@,
            self.currencies@,
            self.supported_symbols@,
            str_table_view(self.supported_currencies),
        )
    }

    /// A fresh exchange with no orders, no slots, no events and no symbols.
    pub fn new(exchange_account_id: String) -> (r: Exchange)
        ensures
            r.wf(),
            forall|c: Seq<char>| !r.flow().orders.contains_key(c),
            forall|v: Seq<char>| !r.flow().venues.contains_key(v),
            forall|c: Seq<char>| !r.flow().slots.contains(c),
            r.flow().events.len() == 0,
            r.exchange_account_id@ == exchange_account_id@,
            r.symbols@.len() == 0,
            r.currencies@.len() == 0,
            r.supported_symbols@.len() == 0,
            forall|c: Seq<char>| !str_table_view(r.supported_currencies).contains_key(c),
    {
        Exchange {
            exchange_account_id,
            registry: OrdersRegistry::new(),
            orders_created_events: SignalTable::new(),
            events: Vec::new(),
            symbols: Vec::new(),
            currencies: Vec::new(),
            supported_symbols: Vec::new(),
            supported_currencies: StrTable::new(),
        }
    }

    /// Registers a provisional order (status `Creating`) under its
    /// caller-assigned identifier, before any network call is issued, so a
    /// race-delivered notification can already find it.
    pub fn register_provisional(&mut self, order_to_create: &OrderCreating) -> (r: Result<
        (),
        CoreError,
    >)
        requires
            old(self).wf(),
            order_to_create.client_order_id@.len() > 0,
        ensures
            final(self).wf(),
            final(self).meta() == old(self).meta(),
            r is Ok <==> !old(self).flow().orders.contains_key(
                order_to_create.client_order_id@,
            ),
            r is Ok ==> final(self).flow() == (ExchangeModel {
                orders: old(self).flow().orders.insert(
                    order_to_create.client_order_id@,
                    Order::provisional_model(*order_to_create),
                ),
                ..old(self).flow()
            }),
            r is Err ==> r == Err::<(), CoreError>(CoreError::DuplicateClientId) && final(self).flow() == old(self).flow(),
    {
        let order = Order::new_provisional(order_to_create, now_millis());
        self.registry.register_provisional(order)
    }

    /// The success reconciliation handler: applies an authoritative
    /// "order created" notification, and detects duplicates, unknown
    /// orders, and contradictions with an earlier failure.
    pub fn handle_create_order_succeeded(
        &mut self,
        client_order_id: &ClientOrderId,
        exchange_order_id: &ExchangeOrderId,
        source_type: EventSourceType,
    ) -> (r: Result<(), CoreError>)
        requires
            old(self).wf(),
        ensures
            final(self).wf(),
            final(self).meta() == old(self).meta(),
            final(self).flow() == succeed_model(
                old(self).flow(),
                client_order_id@,
                exchange_order_id@,
                source_type,
            ),
            ({
                let v = succeed_verdict(old(self).flow(), client_order_id@, exchange_order_id@);
                &&& (r is Err <==> v == SucceedVerdict::Malformed || v
                    == SucceedVerdict::Contradiction)
                &&& v == SucceedVerdict::Malformed ==> r == Err::<(), CoreError>(
                    CoreError::MalformedNotification,
                )
                &&& v == SucceedVerdict::Contradiction ==> r == Err::<(), CoreError>(
                    CoreError::ContradictoryNotification,
                )
            }),
    {
        if client_order_id.as_str().is_empty() || exchange_order_id.as_str().is_empty() {
            return Err(CoreError::MalformedNotification);
        }
        match self.registry.lookup_by_client_id(client_order_id) {
            None => {
                // The order may belong to another process instance or have
                // been purged: absorbed, never fatal.
                Ok(())
            },
            Some(order) => {
                self.react_on_status_when_succeed(
                    client_order_id,
                    exchange_order_id,
                    source_type,
                    order,
                )
            },
        }
    }

    /// Dispatch of the success handler on the order's current status.
    fn react_on_status_when_succeed(
        &mut self,
        client_order_id: &ClientOrderId,
        exchange_order_id: &ExchangeOrderId,
        source_type: EventSourceType,
        order: Order,
    ) -> (r: Result<(), CoreError>)
        requires
            old(self).wf(),
            client_order_id@.len() > 0,
            exchange_order_id@.len() > 0,
            old(self).flow().orders.contains_key(client_order_id@),
            order@ == old(self).flow().orders[client_order_id@],
        ensures
            final(self).wf(),
            final(self).meta() == old(self).meta(),
            final(self).flow() == succeed_model(
                old(self).flow(),
                client_order_id@,
                exchange_order_id@,
                source_type,
            ),
            ({
                let v = succeed_verdict(old(self).flow(), client_order_id@, exchange_order_id@);
                &&& (r is Err <==> v == SucceedVerdict::Contradiction)
                &&& v == SucceedVerdict::Contradiction ==> r == Err::<(), CoreError>(
                    CoreError::ContradictoryNotification,
                )
            }),
    {
        match order.status {
            OrderStatus::FailedToCreate => {
                // The classic race: a failure notification was applied
                // before this success arrived. Surfaced, never dropped.
                Err(CoreError::ContradictoryNotification)
            },
            OrderStatus::Creating => {
                if self.registry.contains_venue_id(exchange_order_id) {
                    // Duplicate delivery: the venue identifier is already
                    // bound. No-op.
                    return Ok(());
                }
                let mut updated = order;
                updated.status = OrderStatus::Created;
                updated.exchange_order_id = Some(exchange_order_id.clone());
                updated.creation_event_source_type = Some(source_type);
                updated.status_changed_at = now_millis();
                proof {
                    assert(updated@ == created_order_model(
                        old(self).flow().orders[client_order_id@],
                        exchange_order_id@,
                        source_type,
                    ));
                }
                self.registry.put_order(updated);
                self.registry.put_venue_link(exchange_order_id, client_order_id);
                self.events.push(
                    OrderEvent {
                        client_order_id: client_order_id.clone(),
                        event_type: OrderEventType::CreateOrderSucceeded,
                    },
                );
                let _ = self.orders_created_events.fire(client_order_id);
                proof {
                    assert(self.events@.map_values(|e: OrderEvent| e@) =~= old(self).events@.map_values(|e: OrderEvent| e@).push(
                        OrderEventModel {
                            client_order_id: client_order_id@,
                            event_type: OrderEventType::CreateOrderSucceeded,
                        },
                    ));
                }
                Ok(())
            },
            _ => {
                // Already past creation: duplicate delivery, no-op.
                Ok(())
            },
        }
    }

    /// The failure reconciliation handler: applies an authoritative
    /// "creation failed" notification, and surfaces unknown orders and
    /// status races.
    pub fn handle_create_order_failed(
        &mut self,
        client_order_id: &ClientOrderId,
        error: &ExchangeError,
        source_type: EventSourceType,
    ) -> (r: Result<(), CoreError>)
        requires
            old(self).wf(),
        ensures
            final(self).wf(),
            final(self).meta() == old(self).meta(),
            final(self).flow() == fail_model(
                old(self).flow(),
                client_order_id@,
                error.error_type,
                error.message@,
            ),
            ({
                let v = fail_verdict(old(self).flow(), client_order_id@);
                &&& (r is Ok <==> v == FailVerdict::Applied || v == FailVerdict::Duplicate)
                &&& v == FailVerdict::Malformed ==> r == Err::<(), CoreError>(
                    CoreError::MalformedNotification,
                )
                &&& v == FailVerdict::NotFound ==> r == Err::<(), CoreError>(
                    CoreError::OrderNotFound,
                )
                &&& v == FailVerdict::Unexpected ==> r == Err::<(), CoreError>(
                    CoreError::UnexpectedStatusForFailure(
                        old(self).flow().orders[client_order_id@].status,
                    ),
                )
            }),
    {
        if client_order_id.as_str().is_empty() {
            return Err(CoreError::MalformedNotification);
        }
        match self.registry.lookup_by_client_id(client_order_id) {
            None => {
                // Unlike the success path, a failure notification for an
                // unknown order is a caller-visible inconsistency.
                Err(CoreError::OrderNotFound)
            },
            Some(order) => {
                self.react_on_status_when_failed(client_order_id, error, source_type, order)
            },
        }
    }

    /// Dispatch of the failure handler on the order's current status.
    fn react_on_status_when_failed(
        &mut self,
        client_order_id: &ClientOrderId,
        error: &ExchangeError,
        source_type: EventSourceType,
        order: Order,
    ) -> (r: Result<(), CoreError>)
        requires
            old(self).wf(),
            client_order_id@.len() > 0,
            old(self).flow().orders.contains_key(client_order_id@),
            order@ == old(self).flow().orders[client_order_id@],
        ensures
            final(self).wf(),
            final(self).meta() == old(self).meta(),
            final(self).flow() == fail_model(
                old(self).flow(),
                client_order_id@,
                error.error_type,
                error.message@,
            ),
            ({
                let v = fail_verdict(old(self).flow(), client_order_id@);
                &&& (r is Ok <==> v == FailVerdict::Applied || v == FailVerdict::Duplicate)
                &&& v == FailVerdict::Unexpected ==> r == Err::<(), CoreError>(
                    CoreError::UnexpectedStatusForFailure(
                        old(self).flow().orders[client_order_id@].status,
                    ),
                )
            }),
    {
        match order.status {
            OrderStatus::Creating => {
                let mut updated = order;
                updated.status = OrderStatus::FailedToCreate;
                updated.last_creation_error_type = Some(error.error_type);
                updated.last_creation_error_message = error.message.clone();
                updated.status_changed_at = now_millis();
                proof {
                    assert(updated@ == failed_order_model(
                        old(self).flow().orders[client_order_id@],
                        error.error_type,
                        error.message@,
                    ));
                }
                self.registry.put_order(updated);
                self.events.push(
                    OrderEvent {
                        client_order_id: client_order_id.clone(),
                        event_type: OrderEventType::CreateOrderFailed,
                    },
                );
                proof {
                    assert(self.events@.map_values(|e: OrderEvent| e@) =~= old(self).events@.map_values(|e: OrderEvent| e@).push(
                        OrderEventModel {
                            client_order_id: client_order_id@,
                            event_type: OrderEventType::CreateOrderFailed,
                        },
                    ));
                }
                Ok(())
            },
            OrderStatus::FailedToCreate => {
                // Duplicate failure notification: absorbed.
                Ok(())
            },
            _ => Self::log_error_and_propagate(order.status),
        }
    }

    /// A failure notification arrived for an order already past creation:
    /// surfaced as a protocol violation with the status it found.
    pub fn log_error_and_propagate(status: OrderStatus) -> (r: Result<(), CoreError>)
        ensures
            r == Err::<(), CoreError>(CoreError::UnexpectedStatusForFailure(status)),
    {
        Err(CoreError::UnexpectedStatusForFailure(status))
    }

    /// Resolves a submitted order against the raced outcome of the
    /// transport call: `None` when the cancellation token fired first,
    /// `Some` carrying the venue's acknowledgment or rejection. Invokes the
    /// reconciliation handlers exactly as an externally delivered
    /// notification would, so whichever path runs first performs the
    /// authoritative transition.
    pub fn create_order(
        &mut self,
        client_order_id: &ClientOrderId,
        outcome: Option<CreateOrderResult>,
    ) -> (r: Result<Order, CoreError>)
        requires
            old(self).wf(),
        ensures
            final(self).wf(),
            final(self).meta() == old(self).meta(),
            outcome is None ==> r == Err::<Order, CoreError>(CoreError::Cancelled) && final(self).flow() == old(self).flow(),
            outcome matches Some(cr) ==> (cr.outcome matches RequestResult::Success(eoid) ==> ({
                let v = succeed_verdict(old(self).flow(), client_order_id@, eoid@);
                let m1 = succeed_model(old(self).flow(), client_order_id@, eoid@, cr.source_type);
                &&& final(self).flow() == m1
                &&& v == SucceedVerdict::Malformed ==> r == Err::<Order, CoreError>(
                    CoreError::MalformedNotification,
                )
                &&& v == SucceedVerdict::Contradiction ==> r == Err::<Order, CoreError>(
                    CoreError::ContradictoryNotification,
                )
                &&& (v != SucceedVerdict::Malformed && v != SucceedVerdict::Contradiction) ==> {
                    &&& (r is Ok <==> m1.venues.contains_key(eoid@))
                    &&& r matches Ok(o) ==> o@ == m1.orders[m1.venues[eoid@]]
                    &&& !m1.venues.contains_key(eoid@) ==> r == Err::<Order, CoreError>(
                        CoreError::OrderNotFound,
                    )
                }
            })),
            outcome matches Some(cr) ==> (cr.outcome matches RequestResult::Error(e) ==> ({
                let fv = fail_verdict(old(self).flow(), client_order_id@);
                &&& e.error_type == ExchangeErrorType::ParsingError ==> final(self).flow() == old(self).flow() && r == Err::<Order, CoreError>(CoreError::TransportError(e))
                &&& e.error_type != ExchangeErrorType::ParsingError ==> {
                    &&& final(self).flow() == fail_model(
                        old(self).flow(),
                        client_order_id@,
                        e.error_type,
                        e.message@,
                    )
                    &&& fv == FailVerdict::Malformed ==> r == Err::<Order, CoreError>(
                        CoreError::MalformedNotification,
                    )
                    &&& fv == FailVerdict::NotFound ==> r == Err::<Order, CoreError>(
                        CoreError::OrderNotFound,
                    )
                    &&& fv == FailVerdict::Unexpected ==> r == Err::<Order, CoreError>(
                        CoreError::UnexpectedStatusForFailure(
                            old(self).flow().orders[client_order_id@].status,
                        ),
                    )
                    &&& (fv == FailVerdict::Applied || fv == FailVerdict::Duplicate) ==> r
                        == Err::<Order, CoreError>(CoreError::TransportError(e))
                }
            })),
    {
        match outcome {
            None => {
                // The token fired while the transport call was outstanding:
                // the caller is unblocked, the order stays `Creating` for a
                // later notification to resolve.
                Err(CoreError::Cancelled)
            },
            Some(created_order) => {
                match created_order.outcome {
                    RequestResult::Success(exchange_order_id) => {
                        match self.handle_create_order_succeeded(
                            client_order_id,
                            &exchange_order_id,
                            created_order.source_type,
                        ) {
                            Err(e) => Err(e),
                            Ok(_) => self.match_created_order_outcome_ok(&exchange_order_id),
                        }
                    },
                    RequestResult::Error(exchange_error) => {
                        if exchange_error.error_type == ExchangeErrorType::ParsingError {
                            // A parsing failure must not contradict a late
                            // notification: no reconciliation from this path.
                            Err(CoreError::TransportError(exchange_error))
                        } else {
                            match self.handle_create_order_failed(
                                client_order_id,
                                &exchange_error,
                                created_order.source_type,
                            ) {
                                Err(e) => Err(e),
                                Ok(_) => Err(CoreError::TransportError(exchange_error)),
                            }
                        }
                    },
                }
            },
        }
    }

    /// After a successful outcome was reconciled, returns the order now
    /// bound to the venue identifier, or `OrderNotFound` when no order is.
    fn match_created_order_outcome_ok(&self, exchange_order_id: &ExchangeOrderId) -> (r: Result<
        Order,
        CoreError,
    >)
        requires
            self.wf(),
        ensures
            r is Ok <==> self.flow().venues.contains_key(exchange_order_id@),
            r matches Ok(o) ==> o@ == self.flow().orders[self.flow().venues[exchange_order_id@]],
            !self.flow().venues.contains_key(exchange_order_id@) ==> r == Err::<
                Order,
                CoreError,
            >(CoreError::OrderNotFound),
    {
        match self.registry.lookup_by_venue_id(exchange_order_id) {
            Some(order) => Ok(order),
            None => Err(CoreError::OrderNotFound),
        }
    }

    /// Resolves a raced create-order outcome to the order it concerns, as
    /// `create_order` does after reconciliation: a success is answered with
    /// the order bound to the venue identifier, an error is surfaced as a
    /// transport error.
    pub fn match_created_order_outcome(&self, outcome: RequestResult<ExchangeOrderId>) -> (r:
        Result<Order, CoreError>)
        requires
            self.wf(),
        ensures
            outcome matches RequestResult::Success(eoid) ==> {
                &&& r is Ok <==> self.flow().venues.contains_key(eoid@)
                &&& r matches Ok(o) ==> o@ == self.flow().orders[self.flow().venues[eoid@]]
                &&& !self.flow().venues.contains_key(eoid@) ==> r == Err::<Order, CoreError>(
                    CoreError::OrderNotFound,
                )
            },
            outcome matches RequestResult::Error(e) ==> r == Err::<Order, CoreError>(
                CoreError::TransportError(e),
            ),
    {
        match outcome {
            RequestResult::Success(exchange_order_id) => {
                self.match_created_order_outcome_ok(&exchange_order_id)
            },
            RequestResult::Error(exchange_error) => {
                Err(CoreError::TransportError(exchange_error))
            },
        }
    }

    /// Prepares a blocking wait for the order's "created" transition.
    ///
    /// Fast path first: an order already resolved (or unknown) returns at
    /// once without registering a slot, so no wakeup can be missed. Then the
    /// token is checked, a slot is registered, and the status is re-checked
    /// to close the registration race before the caller suspends on the
    /// signal; the sender is the receiving half's counterpart the caller
    /// keeps.
    pub fn create_order_created_task(
        &mut self,
        client_order_id: &ClientOrderId,
        tokens: &TokenTree,
        token: usize,
        tx: tokio::sync::oneshot::Sender<()>,
    ) -> (r: WaitStart)
        requires
            old(self).wf(),
            tokens.wf(),
            token < tokens.nodes@.len(),
        ensures
            final(self).wf(),
            final(self).meta() == old(self).meta(),
            wait_fast_path(old(self).flow(), client_order_id@) ==> r == WaitStart::AlreadyResolved
                && final(self).flow() == old(self).flow(),
            !wait_fast_path(old(self).flow(), client_order_id@) && node_cancelled(
                tokens.nodes@,
                token as int,
            ) ==> r == WaitStart::Cancelled && final(self).flow() == old(self).flow(),
            !wait_fast_path(old(self).flow(), client_order_id@)
                && !node_cancelled(tokens.nodes@, token as int) ==> r
                == WaitStart::Waiting && final(self).flow() == (ExchangeModel {
                slots: old(self).flow().slots.insert(client_order_id@),
                ..old(self).flow()
            }),
    {
        let resolved_already = match self.registry.lookup_by_client_id(client_order_id) {
            None => true,
            Some(order) => order.status != OrderStatus::Creating,
        };
        if resolved_already {
            return WaitStart::AlreadyResolved;
        }
        if tokens.is_cancelled(token) {
            return WaitStart::Cancelled;
        }
        self.orders_created_events.register(client_order_id, tx);
        let raced = match self.registry.lookup_by_client_id(client_order_id) {
            None => true,
            Some(order) => order.status != OrderStatus::Creating,
        };
        if raced {
            // Under concurrent callers a handler may have resolved the order
            // between the first check and the registration; consume the slot
            // again rather than suspend past the transition.
            let _ = self.create_order_task(client_order_id);
            return WaitStart::ResolvedWhileRegistering;
        }
        WaitStart::Waiting
    }

    /// Fires and removes the rendezvous slot for this order, as a single
    /// atomic step; a second call is a safe no-op. Returns whether a slot
    /// existed.
    pub fn create_order_task(&mut self, client_order_id: &ClientOrderId) -> (r: bool)
        requires
            old(self).wf(),
        ensures
            final(self).wf(),
            final(self).meta() == old(self).meta(),
            final(self).flow() == (ExchangeModel {
                slots: old(self).flow().slots.remove(client_order_id@),
                ..old(self).flow()
            }),
            r == old(self).flow().slots.contains(client_order_id@),
    {
        self.orders_created_events.fire(client_order_id)
    }
}

/// Re-adds the venue-index entry for an order that already carries its
/// venue-assigned identifier; without one, does nothing. For a registered,
/// consistent order the indices already agree, so this only restates the
/// binding.
pub fn try_add_snapshot_by_exchange_id(exchange: &mut Exchange, order: &Order)
    requires
        old(exchange).wf(),
        old(exchange).flow().orders.contains_key(order@.client_order_id),
        old(exchange).flow().orders[order@.client_order_id] == order@,
    ensures
        final(exchange).wf(),
        final(exchange).meta() == old(exchange).meta(),
        order@.exchange_order_id matches Some(v) ==> final(exchange).flow() == (ExchangeModel {
            venues: old(exchange).flow().venues.insert(v, order@.client_order_id),
            ..old(exchange).flow()
        }),
        order@.exchange_order_id is None ==> final(exchange).flow() == old(exchange).flow(),
{
    match &order.exchange_order_id {
        Some(exchange_order_id) => {
            exchange.registry.put_venue_link(exchange_order_id, &order.client_order_id);
        },
        None => {},
    }
}

} // verus!
