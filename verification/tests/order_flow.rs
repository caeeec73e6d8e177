use order_core::exchange::{try_add_snapshot_by_exchange_id, Exchange, WaitStart};
use order_core::orders::{
    CoreError, CreateOrderResult, EventSourceType, ExchangeError, ExchangeErrorType,
    OrderCreating, OrderEventType, OrderSide, OrderStatus, OrderType, RequestResult,
};

fn spec_for(client_order_id: &str) -> OrderCreating {
    OrderCreating {
        client_order_id: client_order_id.to_string(),
        exchange_account_id: "Binance0".to_string(),
        currency_pair: "phb/btc".to_string(),
        side: OrderSide::Buy,
        order_type: OrderType::Limit,
        price: 100,
        amount: 10,
        reservation_id: None,
    }
}

fn exchange() -> Exchange {
    Exchange::new("Binance0".to_string())
}

fn venue_error(message: &str) -> ExchangeError {
    ExchangeError {
        error_type: ExchangeErrorType::InvalidOrder,
        message: message.to_string(),
    }
}

#[test]
fn direct_success_creates_and_binds() {
    // Client id X1, transport returns venue id V1, no prior notification.
    let mut ex = exchange();
    let spec = spec_for("X1");
    ex.register_provisional(&spec).expect("registration");
    let result = ex.create_order(
        &spec.client_order_id,
        Some(CreateOrderResult::successed(
            &"V1".to_string(),
            EventSourceType::Direct,
        )),
    );
    let order = result.expect("created");
    assert_eq!(order.status, OrderStatus::Created);
    assert_eq!(order.exchange_order_id.as_deref(), Some("V1"));
    assert_eq!(
        order.creation_event_source_type,
        Some(EventSourceType::Direct)
    );

    let by_client = ex
        .registry
        .lookup_by_client_id(&"X1".to_string())
        .expect("indexed by client id");
    assert_eq!(by_client.status, OrderStatus::Created);
    let by_venue = ex
        .registry
        .lookup_by_venue_id(&"V1".to_string())
        .expect("indexed by venue id");
    assert_eq!(by_venue.client_order_id, "X1");

    assert_eq!(ex.events.len(), 1);
    assert_eq!(ex.events[0].event_type, OrderEventType::CreateOrderSucceeded);
    assert_eq!(ex.events[0].client_order_id, "X1");
}

#[test]
fn fallback_failure_then_late_success_contradicts() {
    // Client id X2: a fallback failure lands first; the transport success
    // that follows is contradictory and V2 is never bound.
    let mut ex = exchange();
    let spec = spec_for("X2");
    ex.register_provisional(&spec).expect("registration");
    ex.handle_create_order_failed(
        &"X2".to_string(),
        &ExchangeError {
            error_type: ExchangeErrorType::InvalidOrder,
            message: "rejected".to_string(),
        },
        EventSourceType::Fallback,
    )
    .expect("authoritative failure");

    let late = ex.create_order(
        &spec.client_order_id,
        Some(CreateOrderResult::successed(
            &"V2".to_string(),
            EventSourceType::Direct,
        )),
    );
    assert_eq!(late.unwrap_err(), CoreError::ContradictoryNotification);

    let order = ex
        .registry
        .lookup_by_client_id(&"X2".to_string())
        .expect("still registered");
    assert_eq!(order.status, OrderStatus::FailedToCreate);
    assert_eq!(
        order.last_creation_error_type,
        Some(ExchangeErrorType::InvalidOrder)
    );
    assert_eq!(order.last_creation_error_message, "rejected");
    assert!(ex.registry.lookup_by_venue_id(&"V2".to_string()).is_none());
}

#[test]
fn duplicate_success_is_logged_no_op() {
    // Client id X3: two notifications report success with the same venue id
    // V3; the second is a no-op that changes nothing.
    let mut ex = exchange();
    let spec = spec_for("X3");
    ex.register_provisional(&spec).expect("registration");
    ex.handle_create_order_succeeded(
        &"X3".to_string(),
        &"V3".to_string(),
        EventSourceType::Poll,
    )
    .expect("first success");
    let after_first = ex
        .registry
        .lookup_by_client_id(&"X3".to_string())
        .expect("registered");
    assert_eq!(after_first.status, OrderStatus::Created);
    assert_eq!(ex.events.len(), 1);

    ex.handle_create_order_succeeded(
        &"X3".to_string(),
        &"V3".to_string(),
        EventSourceType::Direct,
    )
    .expect("duplicate success is absorbed");
    let after_second = ex
        .registry
        .lookup_by_client_id(&"X3".to_string())
        .expect("registered");
    assert_eq!(after_second.status, OrderStatus::Created);
    assert_eq!(
        after_second.creation_event_source_type,
        Some(EventSourceType::Poll)
    );
    assert_eq!(ex.events.len(), 1);
}

#[test]
fn failure_for_unknown_order_is_not_found() {
    let mut ex = exchange();
    let r = ex.handle_create_order_failed(
        &"missing".to_string(),
        &ExchangeError {
            error_type: ExchangeErrorType::Unknown,
            message: "no such order".to_string(),
        },
        EventSourceType::Fallback,
    );
    assert_eq!(r.unwrap_err(), CoreError::OrderNotFound);
}

#[test]
fn success_for_unknown_order_is_absorbed() {
    let mut ex = exchange();
    ex.handle_create_order_succeeded(
        &"missing".to_string(),
        &"V9".to_string(),
        EventSourceType::Poll,
    )
    .expect("absorbed as a no-op");
    assert!(ex.events.is_empty());
}

#[test]
fn malformed_notifications_are_rejected() {
    let mut ex = exchange();
    let spec = spec_for("X4");
    ex.register_provisional(&spec).expect("registration");
    let empty_venue =
        ex.handle_create_order_succeeded(&"X4".to_string(), &String::new(), EventSourceType::Poll);
    assert_eq!(empty_venue.unwrap_err(), CoreError::MalformedNotification);
    let empty_client = ex.handle_create_order_failed(
        &String::new(),
        &ExchangeError {
            error_type: ExchangeErrorType::Unknown,
            message: "boom".to_string(),
        },
        EventSourceType::Poll,
    );
    assert_eq!(empty_client.unwrap_err(), CoreError::MalformedNotification);
    let order = ex
        .registry
        .lookup_by_client_id(&"X4".to_string())
        .expect("registered");
    assert_eq!(order.status, OrderStatus::Creating);
}

#[test]
fn cancellation_leaves_order_untouched() {
    // The token fired while the transport call was outstanding: the caller
    // gets Cancelled, the order stays Creating for a later notification.
    let mut ex = exchange();
    let spec = spec_for("X5");
    ex.register_provisional(&spec).expect("registration");
    let r = ex.create_order(&spec.client_order_id, None);
    assert_eq!(r.unwrap_err(), CoreError::Cancelled);
    let order = ex
        .registry
        .lookup_by_client_id(&"X5".to_string())
        .expect("registered");
    assert_eq!(order.status, OrderStatus::Creating);
    assert!(ex.events.is_empty());

    // A later authoritative notification still resolves the order.
    ex.handle_create_order_succeeded(
        &"X5".to_string(),
        &"V5".to_string(),
        EventSourceType::Fallback,
    )
    .expect("late success");
    let order = ex
        .registry
        .lookup_by_client_id(&"X5".to_string())
        .expect("registered");
    assert_eq!(order.status, OrderStatus::Created);
}

#[test]
fn venue_rejection_fails_the_order() {
    let mut ex = exchange();
    let spec = spec_for("X6");
    ex.register_provisional(&spec).expect("registration");
    let r = ex.create_order(
        &spec.client_order_id,
        Some(CreateOrderResult::failed(
            venue_error("insufficient margin"),
            EventSourceType::Direct,
        )),
    );
    assert_eq!(
        r.unwrap_err(),
        CoreError::TransportError(venue_error("insufficient margin"))
    );
    let order = ex
        .registry
        .lookup_by_client_id(&"X6".to_string())
        .expect("registered");
    assert_eq!(order.status, OrderStatus::FailedToCreate);
    assert_eq!(ex.events.len(), 1);
    assert_eq!(ex.events[0].event_type, OrderEventType::CreateOrderFailed);
}

#[test]
fn parsing_error_defers_reconciliation() {
    let mut ex = exchange();
    let spec = spec_for("X7");
    ex.register_provisional(&spec).expect("registration");
    let parse_error = ExchangeError {
        error_type: ExchangeErrorType::ParsingError,
        message: "bad payload".to_string(),
    };
    let r = ex.create_order(
        &spec.client_order_id,
        Some(CreateOrderResult::failed(
            parse_error.clone(),
            EventSourceType::Direct,
        )),
    );
    assert_eq!(r.unwrap_err(), CoreError::TransportError(parse_error));
    // The order is not failed by this path: a late notification may still
    // contradict the parse failure.
    let order = ex
        .registry
        .lookup_by_client_id(&"X7".to_string())
        .expect("registered");
    assert_eq!(order.status, OrderStatus::Creating);
    assert!(ex.events.is_empty());
}

#[test]
fn failure_after_created_is_unexpected() {
    let mut ex = exchange();
    let spec = spec_for("X8");
    ex.register_provisional(&spec).expect("registration");
    ex.handle_create_order_succeeded(&"X8".to_string(), &"V8".to_string(), EventSourceType::Direct)
        .expect("created");
    let r = ex.handle_create_order_failed(
        &"X8".to_string(),
        &ExchangeError {
            error_type: ExchangeErrorType::Unknown,
            message: "late failure".to_string(),
        },
        EventSourceType::Fallback,
    );
    assert_eq!(
        r.unwrap_err(),
        CoreError::UnexpectedStatusForFailure(OrderStatus::Created)
    );
}

#[test]
fn duplicate_failure_is_absorbed() {
    let mut ex = exchange();
    let spec = spec_for("X9");
    ex.register_provisional(&spec).expect("registration");
    ex.handle_create_order_failed(
        &"X9".to_string(),
        &ExchangeError {
            error_type: ExchangeErrorType::InvalidOrder,
            message: "first".to_string(),
        },
        EventSourceType::Fallback,
    )
    .expect("authoritative failure");
    assert_eq!(ex.events.len(), 1);
    ex.handle_create_order_failed(
        &"X9".to_string(),
        &ExchangeError {
            error_type: ExchangeErrorType::Unknown,
            message: "second".to_string(),
        },
        EventSourceType::Poll,
    )
    .expect("duplicate failure is absorbed");
    let order = ex
        .registry
        .lookup_by_client_id(&"X9".to_string())
        .expect("registered");
    assert_eq!(order.last_creation_error_message, "first");
    assert_eq!(ex.events.len(), 1);
}

#[test]
fn duplicate_client_id_is_rejected() {
    let mut ex = exchange();
    let spec = spec_for("X10");
    ex.register_provisional(&spec).expect("registration");
    let r = ex.register_provisional(&spec);
    assert_eq!(r.unwrap_err(), CoreError::DuplicateClientId);
}

#[test]
fn bind_venue_id_is_at_most_once() {
    let mut ex = exchange();
    let spec = spec_for("X11");
    ex.register_provisional(&spec).expect("registration");
    ex.handle_create_order_failed(
        &"X11".to_string(),
        &ExchangeError {
            error_type: ExchangeErrorType::InvalidOrder,
            message: "rejected".to_string(),
        },
        EventSourceType::Direct,
    )
    .expect("failed, so no longer creating");

    let missing = ex
        .registry
        .bind_venue_id(&"nobody".to_string(), &"V11".to_string());
    assert_eq!(missing.unwrap_err(), CoreError::OrderNotFound);

    ex.registry
        .bind_venue_id(&"X11".to_string(), &"V11".to_string())
        .expect("first binding");
    let again = ex
        .registry
        .bind_venue_id(&"X11".to_string(), &"V12".to_string());
    assert_eq!(again.unwrap_err(), CoreError::AlreadyBound);
    let by_venue = ex
        .registry
        .lookup_by_venue_id(&"V11".to_string())
        .expect("bound");
    assert_eq!(by_venue.client_order_id, "X11");
}

#[test]
fn snapshot_by_exchange_id_restates_binding() {
    let mut ex = exchange();
    let spec = spec_for("X12");
    ex.register_provisional(&spec).expect("registration");
    ex.handle_create_order_succeeded(
        &"X12".to_string(),
        &"V12".to_string(),
        EventSourceType::Direct,
    )
    .expect("created");
    let order = ex
        .registry
        .lookup_by_client_id(&"X12".to_string())
        .expect("registered");
    try_add_snapshot_by_exchange_id(&mut ex, &order);
    let by_venue = ex
        .registry
        .lookup_by_venue_id(&"V12".to_string())
        .expect("still bound");
    assert_eq!(by_venue.client_order_id, "X12");
}

#[test]
fn waiter_after_resolution_returns_immediately() {
    // A waiter that arrives after the order resolved registers no slot.
    let mut ex = exchange();
    let spec = spec_for("X13");
    ex.register_provisional(&spec).expect("registration");
    ex.handle_create_order_succeeded(
        &"X13".to_string(),
        &"V13".to_string(),
        EventSourceType::Direct,
    )
    .expect("created");

    let tokens = order_core::cancellation::TokenTree::new();
    let (tx, mut rx) = tokio::sync::oneshot::channel();
    let start = ex.create_order_created_task(&"X13".to_string(), &tokens, 0, tx);
    assert_eq!(start, WaitStart::AlreadyResolved);
    assert!(!ex.orders_created_events.has_slot(&"X13".to_string()));
    // The sender was dropped unused, so the channel reports closure, not a
    // signal.
    assert!(rx.try_recv().is_err());
}

#[test]
fn waiter_is_woken_by_the_success_handler() {
    let mut ex = exchange();
    let spec = spec_for("X14");
    ex.register_provisional(&spec).expect("registration");

    let tokens = order_core::cancellation::TokenTree::new();
    let (tx, mut rx) = tokio::sync::oneshot::channel();
    let start = ex.create_order_created_task(&"X14".to_string(), &tokens, 0, tx);
    assert_eq!(start, WaitStart::Waiting);
    assert!(ex.orders_created_events.has_slot(&"X14".to_string()));

    ex.handle_create_order_succeeded(
        &"X14".to_string(),
        &"V14".to_string(),
        EventSourceType::Poll,
    )
    .expect("created");
    assert!(!ex.orders_created_events.has_slot(&"X14".to_string()));
    assert!(rx.try_recv().is_ok());
    // A second fire attempt is a safe no-op.
    assert!(!ex.create_order_task(&"X14".to_string()));
}

#[test]
fn cancelled_waiter_registers_no_slot() {
    let mut ex = exchange();
    let spec = spec_for("X15");
    ex.register_provisional(&spec).expect("registration");

    let mut tokens = order_core::cancellation::TokenTree::new();
    tokens.cancel(0);
    let (tx, _rx) = tokio::sync::oneshot::channel();
    let start = ex.create_order_created_task(&"X15".to_string(), &tokens, 0, tx);
    assert_eq!(start, WaitStart::Cancelled);
    assert!(!ex.orders_created_events.has_slot(&"X15".to_string()));
}

#[test]
fn create_order_result_constructors() {
    let ok = CreateOrderResult::successed(&"V1".to_string(), EventSourceType::Fallback);
    assert_eq!(
        ok.outcome,
        RequestResult::Success("V1".to_string())
    );
    assert_eq!(ok.source_type, EventSourceType::Fallback);

    let err = CreateOrderResult::failed(venue_error("nope"), EventSourceType::Direct);
    assert_eq!(err.outcome, RequestResult::Error(venue_error("nope")));
    assert_eq!(err.source_type, EventSourceType::Direct);
}

#[test]
fn match_created_order_outcome_answers_both_shapes() {
    let mut ex = exchange();
    let spec = spec_for("X16");
    ex.register_provisional(&spec).expect("registration");
    ex.handle_create_order_succeeded(
        &"X16".to_string(),
        &"V16".to_string(),
        EventSourceType::Direct,
    )
    .expect("created");

    let found = ex.match_created_order_outcome(RequestResult::Success("V16".to_string()));
    assert_eq!(found.expect("bound").client_order_id, "X16");

    let missing = ex.match_created_order_outcome(RequestResult::Success("V17".to_string()));
    assert_eq!(missing.unwrap_err(), CoreError::OrderNotFound);

    let failed = ex.match_created_order_outcome(RequestResult::Error(venue_error("down")));
    assert_eq!(
        failed.unwrap_err(),
        CoreError::TransportError(venue_error("down"))
    );
}
