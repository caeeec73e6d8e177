//! Laws of the reconciliation state machine, stated over the order-flow
//! model and proved once and for all. The reconciliation handlers'
//! contracts say their new state is exactly `succeed_model` / `fail_model`
//! of the old one, so these laws carry over to every execution.

use vstd::prelude::*;

use crate::exchange::{
    fail_model, fail_verdict, succeed_model, succeed_verdict, ExchangeModel, FailVerdict,
    SucceedVerdict,
};
use crate::orders::{EventSourceType, ExchangeErrorType, OrderStatus};

verus! {

/// An order in `Creating` resolves to `Created` exactly once: the first
/// authoritative success notification applies the transition, publishes one
/// event and consumes the rendezvous slot; a second success notification
/// with the same outcome is a no-op that changes nothing — in particular it
/// neither changes the status nor fires the rendezvous again.
pub proof fn lemma_success_resolves_once(
    m: ExchangeModel,
    client_order_id: Seq<char>,
    exchange_order_id: Seq<char>,
    source_type: EventSourceType,
    later_source_type: EventSourceType,
)
    requires
        client_order_id.len() > 0,
        exchange_order_id.len() > 0,
        m.orders.contains_key(client_order_id),
        m.orders[client_order_id].status == OrderStatus::Creating,
        !m.venues.contains_key(exchange_order_id),
    ensures
        succeed_verdict(m, client_order_id, exchange_order_id) == SucceedVerdict::Transitioned,
        succeed_model(m, client_order_id, exchange_order_id, source_type).orders[client_order_id].status
            == OrderStatus::Created,
        succeed_model(m, client_order_id, exchange_order_id, source_type).events.len() == m.events.len()
            + 1,
        succeed_verdict(
            succeed_model(m, client_order_id, exchange_order_id, source_type),
            client_order_id,
            exchange_order_id,
        ) == SucceedVerdict::Duplicate,
        succeed_model(
            succeed_model(m, client_order_id, exchange_order_id, source_type),
            client_order_id,
            exchange_order_id,
            later_source_type,
        ) == succeed_model(m, client_order_id, exchange_order_id, source_type),
{
}

/// An order in `Creating` resolves to `FailedToCreate` exactly once: the
/// first authoritative failure notification applies the transition and
/// publishes one event; a second failure notification is a no-op.
pub proof fn lemma_failure_resolves_once(
    m: ExchangeModel,
    client_order_id: Seq<char>,
    error_type: ExchangeErrorType,
    message: Seq<char>,
    later_error_type: ExchangeErrorType,
    later_message: Seq<char>,
)
    requires
        client_order_id.len() > 0,
        m.orders.contains_key(client_order_id),
        m.orders[client_order_id].status == OrderStatus::Creating,
    ensures
        fail_verdict(m, client_order_id) == FailVerdict::Applied,
        fail_model(m, client_order_id, error_type, message).orders[client_order_id].status
            == OrderStatus::FailedToCreate,
        fail_model(m, client_order_id, error_type, message).events.len() == m.events.len() + 1,
        fail_model(m, client_order_id, error_type, message).slots == m.slots,
        fail_verdict(fail_model(m, client_order_id, error_type, message), client_order_id)
            == FailVerdict::Duplicate,
        fail_model(
            fail_model(m, client_order_id, error_type, message),
            client_order_id,
            later_error_type,
            later_message,
        ) == fail_model(m, client_order_id, error_type, message),
{
}

/// A success notification that arrives after a failure notification already
/// set `FailedToCreate` is contradictory: the success call is answered with
/// a contradiction verdict and the state — the status in particular — is
/// unchanged, so the venue identifier it carried is never bound.
pub proof fn lemma_success_after_failure_contradicts(
    m: ExchangeModel,
    client_order_id: Seq<char>,
    error_type: ExchangeErrorType,
    message: Seq<char>,
    exchange_order_id: Seq<char>,
    source_type: EventSourceType,
)
    requires
        client_order_id.len() > 0,
        exchange_order_id.len() > 0,
        m.orders.contains_key(client_order_id),
        m.orders[client_order_id].status == OrderStatus::Creating,
    ensures
        fail_model(m, client_order_id, error_type, message).orders[client_order_id].status
            == OrderStatus::FailedToCreate,
        succeed_verdict(
            fail_model(m, client_order_id, error_type, message),
            client_order_id,
            exchange_order_id,
        ) == SucceedVerdict::Contradiction,
        succeed_model(
            fail_model(m, client_order_id, error_type, message),
            client_order_id,
            exchange_order_id,
            source_type,
        ) == fail_model(m, client_order_id, error_type, message),
{
}

} // verus!
