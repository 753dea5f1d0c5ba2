//! The decisions of the router: to whom an incoming frame belongs, whether
//! it closes a stream, and what an error of the server means. The router
//! itself, which reads the socket and waits, is the caller's.

use vstd::prelude::*;
use vstd::string::*;
use crate::errors::Error;
use crate::errors::ErrorView;
use crate::messages::join;
use crate::messages::MessageView;
use crate::messages::ResponseMessage;
use crate::messages::DISPLAY_END;
use crate::server_versions::LAST_LIQUIDITY;
use crate::server_versions::MARKET_CAP_PRICE;
use crate::server_versions::ORDER_CONTAINER;
use crate::subscriptions::after_dispatch;
use crate::subscriptions::after_event;
use crate::subscriptions::dispatch_result;
use crate::subscriptions::Dispatch;
use crate::subscriptions::Registry;
use crate::subscriptions::RegistryEvent;
use crate::subscriptions::SubscriptionView;
use crate::trace::record_response;
use crate::trace::InteractionView;
use crate::trace::TraceStorage;

verus! {

/// A price tick of market data.
pub const TICK_PRICE: i32 = 1;

/// A size tick of market data.
pub const TICK_SIZE: i32 = 2;

/// A change in the status of an order.
pub const ORDER_STATUS: i32 = 3;

/// An error or a notice of the server.
pub const ERROR: i32 = 4;

/// An open order.
pub const OPEN_ORDER: i32 = 5;

/// A value of the account.
pub const ACCOUNT_VALUE: i32 = 6;

/// A position of the portfolio.
pub const PORTFOLIO_VALUE: i32 = 7;

/// The time of the last account update.
pub const ACCOUNT_UPDATE_TIME: i32 = 8;

/// The next valid order identifier.
pub const NEXT_VALID_ID: i32 = 9;

/// The details of a contract.
pub const CONTRACT_DATA: i32 = 10;

/// An execution.
pub const EXECUTION_DATA: i32 = 11;

/// The accounts that the gateway manages.
pub const MANAGED_ACCOUNTS: i32 = 15;

/// The end of the contract details of a request.
pub const CONTRACT_DATA_END: i32 = 52;

/// The end of the open orders.
pub const OPEN_ORDER_END: i32 = 53;

/// The end of the executions of a request.
pub const EXECUTION_DATA_END: i32 = 55;

/// The commission of an execution.
pub const COMMISSION_REPORT: i32 = 59;

/// A position.
pub const POSITION: i32 = 61;

/// The end of the positions.
pub const POSITION_END: i32 = 62;

/// A value of the account summary.
pub const ACCOUNT_SUMMARY: i32 = 63;

/// The end of the account summary of a request.
pub const ACCOUNT_SUMMARY_END: i32 = 64;

/// Profit and loss of an account.
pub const PNL: i32 = 94;

/// Profit and loss of one position.
pub const PNL_SINGLE: i32 = 95;

/// A completed order.
pub const COMPLETED_ORDER: i32 = 101;

/// The end of the completed orders.
pub const COMPLETED_ORDERS_END: i32 = 102;

/// How the owner of a message kind is found.
#[derive(Clone, Copy, Debug, PartialEq, Eq)]
pub enum Routing {
    /// By the request identifier, which stands at this position.
    ByRequestId(usize),
    /// By the order identifier, which stands at this position.
    ByOrderId(usize),
    /// By the kind alone: the message answers no single request.
    ByKind,
}

/// Where the key of a message stands that lost its message version at
/// version `since`: behind the kind from then on, behind the message version
/// before.
pub open spec fn key_position(v: int, since: int) -> usize {
    if v >= since {
        1
    } else {
        2
    }
}

/// The table of the message kinds: how the owner of each is found. Three
/// kinds lost their message version at some version of the protocol, and
/// their key moved forward with it.
pub open spec fn routing_of(kind: int, v: int) -> Routing {
    if kind == TICK_PRICE || kind == TICK_SIZE || kind == ERROR || kind == CONTRACT_DATA_END
        || kind == EXECUTION_DATA_END || kind == ACCOUNT_SUMMARY || kind == ACCOUNT_SUMMARY_END {
        Routing::ByRequestId(2)
    } else if kind == CONTRACT_DATA || kind == PNL || kind == PNL_SINGLE {
        Routing::ByRequestId(1)
    } else if kind == EXECUTION_DATA {
        Routing::ByRequestId(key_position(v, LAST_LIQUIDITY as int))
    } else if kind == ORDER_STATUS {
        Routing::ByOrderId(key_position(v, MARKET_CAP_PRICE as int))
    } else if kind == OPEN_ORDER {
        Routing::ByOrderId(key_position(v, ORDER_CONTAINER as int))
    } else {
        Routing::ByKind
    }
}

/// Whether a message kind closes the stream of its owner.
pub open spec fn ends_stream(kind: int) -> bool {
    kind == CONTRACT_DATA_END || kind == OPEN_ORDER_END || kind == EXECUTION_DATA_END || kind
        == POSITION_END || kind == ACCOUNT_SUMMARY_END || kind == COMPLETED_ORDERS_END
}

/// The kind whose stream an end-of-stream kind closes; any other kind
/// stands for itself.
pub open spec fn stream_of(kind: int) -> int {
    if kind == CONTRACT_DATA_END {
        CONTRACT_DATA as int
    } else if kind == OPEN_ORDER_END {
        OPEN_ORDER as int
    } else if kind == EXECUTION_DATA_END {
        EXECUTION_DATA as int
    } else if kind == POSITION_END {
        POSITION as int
    } else if kind == ACCOUNT_SUMMARY_END {
        ACCOUNT_SUMMARY as int
    } else if kind == COMPLETED_ORDERS_END {
        COMPLETED_ORDER as int
    } else {
        kind
    }
}

fn position_of_key(server_version: i32, since: i32) -> (r: usize)
    ensures
        r == key_position(server_version as int, since as int),
{
    if server_version >= since {
        1
    } else {
        2
    }
}

/// How the owner of a message kind is found at a version of the protocol.
pub fn routing(kind: i32, server_version: i32) -> (r: Routing)
    ensures
        r == routing_of(kind as int, server_version as int),
{
    if kind == TICK_PRICE || kind == TICK_SIZE || kind == ERROR || kind == CONTRACT_DATA_END
        || kind == EXECUTION_DATA_END || kind == ACCOUNT_SUMMARY || kind == ACCOUNT_SUMMARY_END {
        Routing::ByRequestId(2)
    } else if kind == CONTRACT_DATA || kind == PNL || kind == PNL_SINGLE {
        Routing::ByRequestId(1)
    } else if kind == EXECUTION_DATA {
        Routing::ByRequestId(position_of_key(server_version, LAST_LIQUIDITY))
    } else if kind == ORDER_STATUS {
        Routing::ByOrderId(position_of_key(server_version, MARKET_CAP_PRICE))
    } else if kind == OPEN_ORDER {
        Routing::ByOrderId(position_of_key(server_version, ORDER_CONTAINER))
    } else {
        Routing::ByKind
    }
}

/// Whether a message kind closes the stream of its owner.
pub fn is_end_of_stream(kind: i32) -> (r: bool)
    ensures
        r == ends_stream(kind as int),
{
    kind == CONTRACT_DATA_END || kind == OPEN_ORDER_END || kind == EXECUTION_DATA_END || kind
        == POSITION_END || kind == ACCOUNT_SUMMARY_END || kind == COMPLETED_ORDERS_END
}

fn stream_kind(kind: i32) -> (r: i32)
    ensures
        r == stream_of(kind as int),
{
    if kind == CONTRACT_DATA_END {
        CONTRACT_DATA
    } else if kind == OPEN_ORDER_END {
        OPEN_ORDER
    } else if kind == EXECUTION_DATA_END {
        EXECUTION_DATA
    } else if kind == POSITION_END {
        POSITION
    } else if kind == ACCOUNT_SUMMARY_END {
        ACCOUNT_SUMMARY
    } else if kind == COMPLETED_ORDERS_END {
        COMPLETED_ORDER
    } else {
        kind
    }
}

/// The key under which the owner of a frame is registered.
#[derive(Clone, Copy, Debug, PartialEq, Eq)]
pub enum RoutingKey {
    /// The request with this identifier.
    Request(i32),
    /// The order with this identifier.
    Order(i32),
    /// Whoever listens to this message kind.
    Kind(i32),
}

/// Where a frame goes.
#[derive(Clone, Copy, Debug, PartialEq, Eq)]
pub struct Route {
    /// The message kind of the frame.
    pub kind: i32,
    /// The key of the owner.
    pub key: RoutingKey,
    /// Whether the frame closes the stream of the owner.
    pub end_of_stream: bool,
}

/// The field at `position`, read as an integer.
pub open spec fn int_at(m: MessageView, position: nat) -> Result<int, ErrorView> {
    (MessageView { position, ..m }).read_int()
}

/// Where a frame goes: its kind is the first field; the table tells where
/// the key stands. A frame whose identifier is below zero names no request
/// and no order and goes by its kind: such is an error of the server that
/// is a notice of the connection.
pub open spec fn route_of(m: MessageView, v: int) -> Result<Route, ErrorView> {
    match int_at(m, 0) {
        Err(e) => Err(e),
        Ok(kind) => {
            let end_of_stream = ends_stream(kind);
            match routing_of(kind, v) {
                Routing::ByKind => Ok(
                    Route {
                        kind: kind as i32,
                        key: RoutingKey::Kind(stream_of(kind) as i32),
                        end_of_stream,
                    },
                ),
                Routing::ByOrderId(position) => match int_at(m, position as nat) {
                    Err(e) => Err(e),
                    Ok(id) => if id < 0 {
                        Ok(
                            Route {
                                kind: kind as i32,
                                key: RoutingKey::Kind(stream_of(kind) as i32),
                                end_of_stream,
                            },
                        )
                    } else {
                        Ok(
                            Route {
                                kind: kind as i32,
                                key: RoutingKey::Order(id as i32),
                                end_of_stream,
                            },
                        )
                    },
                },
                Routing::ByRequestId(position) => match int_at(m, position as nat) {
                    Err(e) => Err(e),
                    Ok(id) => if id < 0 {
                        Ok(
                            Route {
                                kind: kind as i32,
                                key: RoutingKey::Kind(stream_of(kind) as i32),
                                end_of_stream,
                            },
                        )
                    } else {
                        Ok(
                            Route {
                                kind: kind as i32,
                                key: RoutingKey::Request(id as i32),
                                end_of_stream,
                            },
                        )
                    },
                },
            }
        },
    }
}

/// Finds where a frame goes at a version of the protocol, without moving
/// its reader.
pub fn route(message: &ResponseMessage, server_version: i32) -> (r: Result<Route, Error>)
    ensures
        match r {
            Ok(route) => route_of(message@, server_version as int) == Ok::<Route, ErrorView>(
                route,
            ),
            Err(e) => route_of(message@, server_version as int) == Err::<Route, ErrorView>(e@),
        },
{
    let kind = message.peek_int(0)?;
    let end_of_stream = is_end_of_stream(kind);
    match routing(kind, server_version) {
        Routing::ByKind => Ok(
            Route { kind, key: RoutingKey::Kind(stream_kind(kind)), end_of_stream },
        ),
        Routing::ByOrderId(position) => {
            let id = message.peek_int(position)?;
            if id < 0 {
                Ok(Route { kind, key: RoutingKey::Kind(stream_kind(kind)), end_of_stream })
            } else {
                Ok(Route { kind, key: RoutingKey::Order(id), end_of_stream })
            }
        },
        Routing::ByRequestId(position) => {
            let id = message.peek_int(position)?;
            if id < 0 {
                Ok(Route { kind, key: RoutingKey::Kind(stream_kind(kind)), end_of_stream })
            } else {
                Ok(Route { kind, key: RoutingKey::Request(id), end_of_stream })
            }
        },
    }
}

/// An error message of the server: the request it answers, and the error.
#[derive(Clone, Debug, PartialEq)]
pub struct ServerError {
    /// The request that the error answers; below zero where it answers none.
    pub request_id: i32,
    /// The code of the error.
    pub code: i32,
    /// The text of the error.
    pub text: String,
}

/// The mathematical content of a [`ServerError`].
pub struct ServerErrorView {
    pub request_id: int,
    pub code: int,
    pub text: Seq<char>,
}

impl View for ServerError {
    type V = ServerErrorView;

    open spec fn view(&self) -> ServerErrorView {
        ServerErrorView { request_id: self.request_id as int, code: self.code as int, text: self.text@ }
    }
}

impl ServerError {
    /// The error as the subscription that owns it is told.
    pub fn into_error(self) -> (e: Error)
        ensures
            e@ == ErrorView::Protocol(self@.code, self@.text),
    {
        Error::Protocol(self.code, self.text)
    }
}

/// The layout of an error message: its kind, its version, the request, the
/// code and the text.
pub open spec fn server_error_of(m: MessageView) -> Result<ServerErrorView, ErrorView> {
    let at = m.skip().skip();
    match at.read_int() {
        Err(e) => Err(e),
        Ok(request_id) => match at.skip().read_int() {
            Err(e) => Err(e),
            Ok(code) => match at.skip().skip().read_string() {
                Err(e) => Err(e),
                Ok(text) => Ok(ServerErrorView { request_id, code, text }),
            },
        },
    }
}

/// The reader after an error message was read: behind the last field that
/// was looked at, which is the text or the first field that could not be
/// read.
pub open spec fn after_server_error(m: MessageView) -> MessageView {
    let at = m.skip().skip();
    match at.read_int() {
        Err(_) => at.skip(),
        Ok(_) => match at.skip().read_int() {
            Err(_) => at.skip().skip(),
            Ok(_) => at.skip().skip().skip(),
        },
    }
}

/// Decodes an error message of the server.
pub fn decode_server_error(message: &mut ResponseMessage) -> (r: Result<ServerError, Error>)
    ensures
        final(message)@ == after_server_error(old(message)@),
        match r {
            Ok(error) => server_error_of(old(message)@) == Ok::<ServerErrorView, ErrorView>(
                error@,
            ),
            Err(e) => server_error_of(old(message)@) == Err::<ServerErrorView, ErrorView>(e@),
        },
{
    message.skip();  // message type
    message.skip();  // message version
    let request_id = message.next_int()?;
    let code = message.next_int()?;
    let text = message.next_string()?;
    Ok(ServerError { request_id, code, text })
}

/// What an error code of the server means for the client.
#[derive(Clone, Copy, Debug, PartialEq, Eq)]
pub enum ErrorClass {
    /// The gateway lost or regained its connection to the broker: a warning
    /// of the connection, not fatal by itself.
    ConnectionWarning,
    /// A data farm is connected or not: a warning.
    FarmWarning,
    /// The call that the error answers has failed for good.
    FatalForCall,
    /// An error of the request it names, and nothing more.
    Ordinary,
}

/// What an error code of the server means.
pub open spec fn class_of(code: int) -> ErrorClass {
    if code == 1100 || code == 1101 || code == 1102 {
        ErrorClass::ConnectionWarning
    } else if code == 2103 || code == 2105 {
        ErrorClass::FarmWarning
    } else if code == 10001 || code == 326 {
        ErrorClass::FatalForCall
    } else {
        ErrorClass::Ordinary
    }
}

/// Classifies an error code of the server.
pub fn classify(code: i32) -> (r: ErrorClass)
    ensures
        r == class_of(code as int),
{
    if code == 1100 || code == 1101 || code == 1102 {
        ErrorClass::ConnectionWarning
    } else if code == 2103 || code == 2105 {
        ErrorClass::FarmWarning
    } else if code == 10001 || code == 326 {
        ErrorClass::FatalForCall
    } else {
        ErrorClass::Ordinary
    }
}

/// The three registries of a connection: one for each way in which the owner
/// of a frame is found.
pub struct Registries {
    /// The subscriptions that are keyed by a request identifier.
    pub requests: Registry,
    /// The subscriptions that are keyed by an order identifier.
    pub orders: Registry,
    /// The subscriptions that listen to a message kind.
    pub kinds: Registry,
    /// Whether the router is running; false once it has shut down.
    pub connected: bool,
}

/// The mathematical content of [`Registries`].
pub struct RegistriesView {
    pub requests: Map<int, SubscriptionView>,
    pub orders: Map<int, SubscriptionView>,
    pub kinds: Map<int, SubscriptionView>,
    pub connected: bool,
}

impl View for Registries {
    type V = RegistriesView;

    open spec fn view(&self) -> RegistriesView {
        RegistriesView {
            requests: self.requests@,
            orders: self.orders@,
            kinds: self.kinds@,
            connected: self.connected,
        }
    }
}

impl Registries {
    /// Each of the three registries is well formed.
    pub open spec fn wf(&self) -> bool {
        self.requests.wf() && self.orders.wf() && self.kinds.wf()
    }

    /// Three registries without subscriptions.
    pub fn new() -> (r: Registries)
        ensures
            r.wf(),
            r@.requests == Map::<int, SubscriptionView>::empty(),
            r@.orders == Map::<int, SubscriptionView>::empty(),
            r@.kinds == Map::<int, SubscriptionView>::empty(),
            r@.connected,
    {
        Registries {
            requests: Registry::new(),
            orders: Registry::new(),
            kinds: Registry::new(),
            connected: true,
        }
    }

    /// Whether a frame may still be sent: not after the router has shut
    /// down.
    pub fn check_connected(&self) -> (r: Result<(), Error>)
        ensures
            match r {
                Ok(()) => self@.connected,
                Err(e) => !self@.connected && e@ == ErrorView::NotConnected,
            },
    {
        if self.connected {
            Ok(())
        } else {
            Err(Error::NotConnected)
        }
    }

    /// The router has shut down: every active subscription of every
    /// registry fails as disconnected, and no frame can be sent any more.
    pub fn shutdown(&mut self)
        requires
            old(self).wf(),
        ensures
            final(self).wf(),
            !final(self)@.connected,
            final(self)@.requests == after_event(old(self)@.requests, RegistryEvent::Shutdown),
            final(self)@.orders == after_event(old(self)@.orders, RegistryEvent::Shutdown),
            final(self)@.kinds == after_event(old(self)@.kinds, RegistryEvent::Shutdown),
    {
        self.requests.shutdown();
        self.orders.shutdown();
        self.kinds.shutdown();
        self.connected = false;
    }
}

/// The registries after a frame was handed to the owner of `key`.
pub open spec fn after_routing(
    registries: RegistriesView,
    key: RoutingKey,
    frame: MessageView,
    end_of_stream: bool,
) -> RegistriesView {
    match key {
        RoutingKey::Request(id) => RegistriesView {
            requests: after_dispatch(registries.requests, id as int, frame, end_of_stream),
            ..registries
        },
        RoutingKey::Order(id) => RegistriesView {
            orders: after_dispatch(registries.orders, id as int, frame, end_of_stream),
            ..registries
        },
        RoutingKey::Kind(kind) => RegistriesView {
            kinds: after_dispatch(registries.kinds, kind as int, frame, end_of_stream),
            ..registries
        },
    }
}

/// What the router is told of a frame for the owner of `key`.
pub open spec fn routing_result(
    registries: RegistriesView,
    key: RoutingKey,
    end_of_stream: bool,
) -> Dispatch {
    match key {
        RoutingKey::Request(id) => dispatch_result(registries.requests, id as int, end_of_stream),
        RoutingKey::Order(id) => dispatch_result(registries.orders, id as int, end_of_stream),
        RoutingKey::Kind(kind) => dispatch_result(registries.kinds, kind as int, end_of_stream),
    }
}

/// What the router does with a frame it has read.
#[derive(Clone, Copy, Debug, PartialEq, Eq)]
pub enum Handling {
    /// The frame went to the owner of the key; what became of it there.
    Routed(RoutingKey, Dispatch),
    /// The frame has no route: its kind or its key cannot be read. It goes
    /// to the sink for unsolicited frames.
    Unroutable,
}

/// Handles one frame that the reader has read: records it in the trace,
/// finds its owner and hands it over. The trace is written whatever becomes
/// of the frame.
pub fn handle_frame(
    registries: &mut Registries,
    trace: &mut TraceStorage,
    server_version: i32,
    frame: &ResponseMessage,
) -> (r: Handling)
    requires
        old(registries).wf(),
    ensures
        final(registries).wf(),
        final(trace)@ == match old(trace)@ {
            Some(interaction) => Some(
                interaction.with_response(join(frame@.fields, DISPLAY_END)),
            ),
            None => None,
        },
        match route_of(frame@, server_version as int) {
            Ok(route) => {
                &&& r == Handling::Routed(
                    route.key,
                    routing_result(old(registries)@, route.key, route.end_of_stream),
                )
                &&& final(registries)@ == after_routing(
                    old(registries)@,
                    route.key,
                    frame@,
                    route.end_of_stream,
                )
            },
            Err(_) => r == Handling::Unroutable && final(registries)@ == old(registries)@,
        },
{
    record_response(trace, frame);
    match route(frame, server_version) {
        Err(_) => Handling::Unroutable,
        Ok(found) => {
            let outcome = match found.key {
                RoutingKey::Request(id) => registries.requests.dispatch(
                    id,
                    frame,
                    found.end_of_stream,
                ),
                RoutingKey::Order(id) => registries.orders.dispatch(id, frame, found.end_of_stream),
                RoutingKey::Kind(kind) => registries.kinds.dispatch(
                    kind,
                    frame,
                    found.end_of_stream,
                ),
            };
            Handling::Routed(found.key, outcome)
        },
    }
}

} // verus!
