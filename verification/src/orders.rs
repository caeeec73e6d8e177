use vstd::prelude::*;

verus! {

/// Identifier chosen by the submitting side before any venue acknowledgment exists.
pub type ClientOrderId = String;

/// Identifier returned by the trading venue upon acceptance.
pub type ExchangeOrderId = String;

/// Status of an order, advanced by the reconciliation handlers.
///
/// Allowed transitions:
/// `Creating -> Created`, `Creating -> FailedToCreate`,
/// `Created -> Canceling`, `Canceling -> Canceled`,
/// `Canceling -> FailedToCancel`, `Created -> Completed`.
#[derive(Clone, Copy, Debug, PartialEq, Eq, Structural)]
pub enum OrderStatus {
    Creating,
    Created,
    FailedToCreate,
    Canceling,
    Canceled,
    FailedToCancel,
    Completed,
}

#[derive(Clone, Copy, Debug, PartialEq, Eq, Structural)]
pub enum OrderSide {
    Buy,
    Sell,
}

#[derive(Clone, Copy, Debug, PartialEq, Eq, Structural)]
pub enum OrderType {
    Limit,
    Market,
    Liquidation,
}

/// Marks which delivery path produced a notification: the direct
/// request/response path, a fallback poll, or an out-of-band push channel.
#[derive(Clone, Copy, Debug, PartialEq, Eq, Structural)]
pub enum EventSourceType {
    Direct,
    Fallback,
    Poll,
}

/// Lifecycle events published for external consumers.
#[derive(Clone, Copy, Debug, PartialEq, Eq, Structural)]
pub enum OrderEventType {
    CreateOrderSucceeded,
    CreateOrderFailed,
}

/// Classification of an error reported by the venue or the transport.
#[derive(Clone, Copy, Debug, PartialEq, Eq, Structural)]
pub enum ExchangeErrorType {
    Unknown,
    RateLimit,
    Authentication,
    InsufficientFunds,
    InvalidOrder,
    ParsingError,
    ServiceUnavailable,
}

/// An error reported by the venue or the transport, with its classification.
#[derive(Clone, Debug, PartialEq, Eq)]
pub struct ExchangeError {
    pub error_type: ExchangeErrorType,
    pub message: String,
}

/// Outcome of a request to the venue: either a value or a venue/transport error.
#[derive(Clone, Debug, PartialEq, Eq)]
pub enum RequestResult<T> {
    Success(T),
    Error(ExchangeError),
}

/// Errors surfaced by the order-execution core.
#[derive(Clone, Debug, PartialEq, Eq)]
pub enum CoreError {
    /// The caller's cancellation token fired; the order itself is untouched.
    Cancelled,
    /// The transport call failed or the venue rejected the order.
    TransportError(ExchangeError),
    /// A notification carried an empty identifier; fatal to that notification only.
    MalformedNotification,
    /// Two notification sources disagree about the same transition.
    ContradictoryNotification,
    /// A failure notification named an order that is not in the registry.
    OrderNotFound,
    /// A failure notification arrived for an order already past creation.
    UnexpectedStatusForFailure(OrderStatus),
    /// An order with the same caller-assigned identifier is already registered.
    DuplicateClientId,
    /// The venue-assigned identifier was already bound for this order.
    AlreadyBound,
}

/// The order specification a caller submits: identity and economic terms.
#[derive(Clone, Debug)]
pub struct OrderCreating {
    pub client_order_id: ClientOrderId,
    pub exchange_account_id: String,
    pub currency_pair: String,
    pub side: OrderSide,
    pub order_type: OrderType,
    pub price: u64,
    pub amount: u64,
    pub reservation_id: Option<u64>,
}

/// The authoritative in-memory record of one order.
///
/// Identity and economic terms are immutable after creation; `status`, the
/// last creation error, the source tag and the venue-assigned identifier are
/// mutated only by the reconciliation handlers.
#[derive(Clone, Debug)]
pub struct Order {
    pub client_order_id: ClientOrderId,
    pub exchange_account_id: String,
    pub currency_pair: String,
    pub side: OrderSide,
    pub order_type: OrderType,
    pub price: u64,
    pub amount: u64,
    pub exchange_order_id: Option<ExchangeOrderId>,
    pub status: OrderStatus,
    pub last_creation_error_type: Option<ExchangeErrorType>,
    pub last_creation_error_message: String,
    pub creation_event_source_type: Option<EventSourceType>,
    pub reservation_id: Option<u64>,
    /// Wall-clock time of the last status change, in milliseconds; recorded
    /// for operators and deliberately absent from the mathematical model.
    pub status_changed_at: i64,
}

/// The mathematical model of an `Order`: every field the reconciliation
/// logic reads, with strings as character sequences.
pub struct OrderModel {
    pub client_order_id: Seq<char>,
    pub exchange_account_id: Seq<char>,
    pub currency_pair: Seq<char>,
    pub side: OrderSide,
    pub order_type: OrderType,
    pub price: u64,
    pub amount: u64,
    pub exchange_order_id: Option<Seq<char>>,
    pub status: OrderStatus,
    pub last_creation_error_type: Option<ExchangeErrorType>,
    pub last_creation_error_message: Seq<char>,
    pub creation_event_source_type: Option<EventSourceType>,
    pub reservation_id: Option<u64>,
}

pub open spec fn opt_str_view(o: Option<String>) -> Option<Seq<char>> {
    match o {
        Some(s) => Some(s@),
        None => None,
    }
}

impl View for Order {
    type V = OrderModel;

    open spec fn view(&self) -> OrderModel {
        OrderModel {
            client_order_id: self.client_order_id@,
            exchange_account_id: self.exchange_account_id@,
            currency_pair: self.currency_pair@,
            side: self.side,
            order_type: self.order_type,
            price: self.price,
            amount: self.amount,
            exchange_order_id: opt_str_view(self.exchange_order_id),
            status: self.status,
            last_creation_error_type: self.last_creation_error_type,
            last_creation_error_message: self.last_creation_error_message@,
            creation_event_source_type: self.creation_event_source_type,
            reservation_id: self.reservation_id,
        }
    }
}

impl Order {
    /// The model of a freshly registered provisional order for `spec`.
    pub open spec fn provisional_model(spec: OrderCreating) -> OrderModel {
        OrderModel {
            client_order_id: spec.client_order_id@,
            exchange_account_id: spec.exchange_account_id@,
            currency_pair: spec.currency_pair@,
            side: spec.side,
            order_type: spec.order_type,
            price: spec.price,
            amount: spec.amount,
            exchange_order_id: None,
            status: OrderStatus::Creating,
            last_creation_error_type: None,
            last_creation_error_message: Seq::empty(),
            creation_event_source_type: None,
            reservation_id: spec.reservation_id,
        }
    }

    /// Builds the provisional record for a submitted specification:
    /// status `Creating`, no venue-assigned identifier, no error recorded.
    pub fn new_provisional(spec: &OrderCreating, now: i64) -> (r: Order)
        ensures
            r@ == Order::provisional_model(*spec),
    {
        let r = Order {
            client_order_id: spec.client_order_id.clone(),
            exchange_account_id: spec.exchange_account_id.clone(),
            currency_pair: spec.currency_pair.clone(),
            side: spec.side,
            order_type: spec.order_type,
            price: spec.price,
            amount: spec.amount,
            exchange_order_id: None,
            status: OrderStatus::Creating,
            last_creation_error_type: None,
            last_creation_error_message: String::new(),
            creation_event_source_type: None,
            reservation_id: spec.reservation_id,
            status_changed_at: now,
        };
        r
    }
}

/// One published lifecycle event.
#[derive(Clone, Debug, PartialEq, Eq)]
pub struct OrderEvent {
    pub client_order_id: ClientOrderId,
    pub event_type: OrderEventType,
}

/// The model of a lifecycle event.
pub struct OrderEventModel {
    pub client_order_id: Seq<char>,
    pub event_type: OrderEventType,
}

impl View for OrderEvent {
    type V = OrderEventModel;

    open spec fn view(&self) -> OrderEventModel {
        OrderEventModel { client_order_id: self.client_order_id@, event_type: self.event_type }
    }
}

/// Result of one create-order attempt as reported by the transport or a
/// notification source.
#[derive(Debug, Eq, PartialEq, Clone)]
pub struct CreateOrderResult {
    pub outcome: RequestResult<ExchangeOrderId>,
    pub source_type: EventSourceType,
}

impl CreateOrderResult {
    /// A successful attempt that carries the venue-assigned identifier.
    pub fn successed(order_id: &ExchangeOrderId, source_type: EventSourceType) -> (r:
        CreateOrderResult)
        ensures
            r.outcome matches RequestResult::Success(id) && id@ == order_id@,
            r.source_type == source_type,
    {
        CreateOrderResult { outcome: RequestResult::Success(order_id.clone()), source_type }
    }

    /// A failed attempt that carries the venue's or transport's error.
    pub fn failed(error: ExchangeError, source_type: EventSourceType) -> (r: CreateOrderResult)
        ensures
            r.outcome == RequestResult::<ExchangeOrderId>::Error(error),
            r.source_type == source_type,
    {
        CreateOrderResult { outcome: RequestResult::Error(error), source_type }
    }
}

} // verus!
