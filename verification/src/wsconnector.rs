//! The client connector that reaches a server over a websocket.
//!
//! The websocket library runs its own blocking event loop, so the embedding
//! program gives it a thread of its own. That thread passes the connection's
//! sender and then every inbound frame across a channel; a receiver task
//! feeds them to [`ButtplugWebsocketClientConnector::receive`]. The connector
//! keeps track of the connection and of the requests that wait on it, and
//! says what is to be delivered to whom.

use crate::connector::{
    unit_views, ButtplugClientConnectorError, ButtplugClientError,
    ButtplugRemoteClientConnectorMessage, ButtplugRemoteClientConnectorSender, Delivery,
    InboundUnit,
};
use crate::messagesorter::{closes_all, ids_of, routes_frame, ClientConnectorMessageSorter};
use crate::wire::{decode_frame, decode_spec, frame};
use vstd::prelude::*;
use ws::CloseCode;

verus! {

/// The address that the connector dials.
pub const CONNECTION: &'static str = "ws://127.0.0.1:12345";

/// The output handle of a websocket connection (`ws::Sender`): an opaque
/// value that queues commands for the event loop that owns the socket.
#[verifier::external_type_specification]
#[verifier::external_body]
pub struct ExWsSender(ws::Sender);

/// The error type of the websocket library (`ws::Error`), carried as an
/// opaque value.
#[verifier::external_type_specification]
#[verifier::external_body]
pub struct ExWsError(ws::Error);

/// The status codes with which a websocket can be closed (`ws::CloseCode`),
/// declared with its variants so that the code to close with is chosen in
/// verified code.
#[verifier::external_type_specification]
pub struct ExWsCloseCode(ws::CloseCode);

/// `ws::Sender::send` queues a text message for the connection. Whether the
/// queue takes it depends on the state of the event loop, so nothing is
/// claimed about the result.
#[verifier::external_body]
fn ws_send(sender: &ws::Sender, text: String) -> (queued: Result<(), ws::Error>) {
    sender.send(text)
}

/// `ws::Sender::close` queues a close with the given status code. Nothing is
/// claimed about the result, for the same reason.
#[verifier::external_body]
fn ws_close(sender: &ws::Sender, code: CloseCode) -> (queued: Result<(), ws::Error>) {
    sender.close(code)
}

/// What a result of the websocket library means to a caller of the connector:
/// every failure of the transport is reported as
/// [`TransportFailed`](ButtplugClientConnectorError::TransportFailed).
pub fn transport_outcome(result: Result<(), ws::Error>) -> (outcome: Result<
    (),
    ButtplugClientConnectorError,
>)
    ensures
        result is Ok ==> outcome is Ok,
        result is Err ==> outcome == Err::<(), ButtplugClientConnectorError>(
            ButtplugClientConnectorError::TransportFailed,
        ),
{
    match result {
        Ok(_) => Ok(()),
        Err(_) => Err(ButtplugClientConnectorError::TransportFailed),
    }
}

/// The status code with which this end closes a websocket: a normal close.
pub fn close_code() -> (code: CloseCode)
    ensures
        code == CloseCode::Normal,
{
    CloseCode::Normal
}

/// What a disconnect reports of the sender's answer to the close: no error
/// where the sender took the close, the sender's own error where it did not.
pub fn close_report(answer: Result<(), ButtplugClientConnectorError>) -> (error: Option<
    ButtplugClientConnectorError,
>)
    ensures
        answer is Ok ==> error is None,
        answer matches Err(refusal) ==> error == Some(refusal),
{
    match answer {
        Ok(_) => None,
        Err(refusal) => Some(refusal),
    }
}

/// The websocket's sender behind the transport-sender capability.
pub struct ButtplugWebsocketWrappedSender {
    sender: ws::Sender,
}

impl ButtplugWebsocketWrappedSender {
    pub fn new(send: ws::Sender) -> (wrapped: ButtplugWebsocketWrappedSender)
        ensures
            wrapped.transport() == send,
    {
        ButtplugWebsocketWrappedSender { sender: send }
    }

    /// The websocket sender that is wrapped.
    pub closed spec fn transport(&self) -> ws::Sender {
        self.sender
    }
}

impl ButtplugRemoteClientConnectorSender for ButtplugWebsocketWrappedSender {
    /// Frames the payload as a one-element array and queues it on the
    /// websocket.
    fn send(&self, payload: &str) -> (sent: Result<(), ButtplugClientConnectorError>)
        ensures
            sent is Ok || sent == Err::<(), ButtplugClientConnectorError>(
                ButtplugClientConnectorError::TransportFailed,
            ),
    {
        let framed = frame(payload);
        transport_outcome(ws_send(&self.sender, framed))
    }

    /// Queues a close of the websocket with the code that [`close_code`]
    /// gives.
    fn close(&self) -> (closed: Result<(), ButtplugClientConnectorError>)
        ensures
            closed is Ok || closed == Err::<(), ButtplugClientConnectorError>(
                ButtplugClientConnectorError::TransportFailed,
            ),
    {
        transport_outcome(ws_close(&self.sender, close_code()))
    }
}

/// How far the connection has come.
#[derive(Debug, Clone, Copy, PartialEq, Eq, Structural)]
pub enum ConnectionPhase {
    /// Nothing is under way.
    Disconnected,
    /// The transport has been asked to connect and has not handed over its
    /// sender yet.
    Connecting,
    /// The sender is held; requests can be sent.
    Connected,
}

/// What the connector made of a message from the transport's thread.
#[derive(Debug, PartialEq, Eq)]
pub enum Reception {
    /// The sender was taken; the connection stands.
    Attached,
    /// The sender was not expected. It has been asked to close and let go.
    Rejected,
    /// An inbound frame was taken apart and its units were routed: this is
    /// what is to be delivered, unit by unit.
    Delivered(Vec<Delivery>),
    /// Text that is not a frame. It is handed back as it came.
    Malformed(String),
    /// Text that arrived while no connection stood. It is not looked at.
    Ignored,
}

/// What a disconnect leaves to do.
#[derive(Debug, PartialEq, Eq)]
pub struct Disconnection {
    /// The failure of the transport to take the close, if it reported one.
    pub error: Option<ButtplugClientConnectorError>,
    /// The requests that were waiting, each failed because the connection was
    /// closed.
    pub failures: Vec<Delivery>,
}

/// What the end of the transport's event loop leaves to do.
#[derive(Debug, PartialEq, Eq)]
pub struct ConnectionEnd {
    /// How the connection came to its end.
    pub error: ButtplugClientConnectorError,
    /// The requests that were waiting, each failed with `error`.
    pub failures: Vec<Delivery>,
}

enum Link {
    Disconnected,
    Connecting,
    Connected {
        sender: Box<dyn ButtplugRemoteClientConnectorSender>,
        sorter: ClientConnectorMessageSorter,
    },
}

/// The client's end of a websocket connection to a server.
///
/// Requests wait only on a connection that stands: the table of waiting
/// requests comes into being with the sender and goes with it.
pub struct ButtplugWebsocketClientConnector {
    link: Link,
}

impl ButtplugWebsocketClientConnector {
    /// How far the connection has come.
    pub closed spec fn phase(&self) -> ConnectionPhase {
        match self.link {
            Link::Disconnected => ConnectionPhase::Disconnected,
            Link::Connecting => ConnectionPhase::Connecting,
            Link::Connected { .. } => ConnectionPhase::Connected,
        }
    }

    /// The correlation ids of the requests that wait for their response.
    pub closed spec fn pending(&self) -> Set<u32> {
        match self.link {
            Link::Connected { sender, sorter } => sorter@,
            _ => Set::empty(),
        }
    }

    /// A connector that is not connected and on which nothing waits.
    pub fn new() -> (connector: ButtplugWebsocketClientConnector)
        ensures
            connector.phase() == ConnectionPhase::Disconnected,
            connector.pending() == Set::<u32>::empty(),
    {
        ButtplugWebsocketClientConnector { link: Link::Disconnected }
    }

    /// Reports how far the connection has come.
    pub fn status(&self) -> (phase: ConnectionPhase)
        ensures
            phase == self.phase(),
    {
        match &self.link {
            Link::Disconnected => ConnectionPhase::Disconnected,
            Link::Connecting => ConnectionPhase::Connecting,
            Link::Connected { .. } => ConnectionPhase::Connected,
        }
    }

    /// Whether a request with this id waits for its response.
    pub fn is_pending(&self, id: u32) -> (waiting: bool)
        ensures
            waiting == self.pending().contains(id),
    {
        match &self.link {
            Link::Connected { sender, sorter } => sorter.is_pending(id),
            _ => false,
        }
    }

    /// Begins to connect. A connector that was disconnected is connecting
    /// afterwards, and the transport is to be started on [`CONNECTION`]; one
    /// that was connecting or connected stays as it is. The call does not
    /// wait for the transport and reports no error of its own.
    pub fn connect(&mut self) -> (error: Option<ButtplugClientConnectorError>)
        ensures
            error is None,
            old(self).phase() == ConnectionPhase::Disconnected ==> final(self).phase()
                == ConnectionPhase::Connecting,
            old(self).phase() != ConnectionPhase::Disconnected ==> *final(self) == *old(self),
            final(self).pending() == old(self).pending(),
    {
        let mut link = Link::Disconnected;
        core::mem::swap(&mut link, &mut self.link);
        match link {
            Link::Disconnected => {
                self.link = Link::Connecting;
            },
            other => {
                self.link = other;
            },
        }
        None
    }

    /// Takes in a message from the transport's thread.
    ///
    /// The sender is taken while the connector is connecting; at any other
    /// time it is asked to close and let go. Text is ignored unless the
    /// connection stands; then it is taken apart as an inbound frame and each
    /// of its units is routed as [`deliver`](Self::deliver) does it.
    pub fn receive(&mut self, message: ButtplugRemoteClientConnectorMessage) -> (reception:
        Reception)
        ensures
            message is Sender ==> final(self).pending() == old(self).pending(),
            message is Sender && old(self).phase() == ConnectionPhase::Connecting ==> reception
                is Attached && final(self).phase() == ConnectionPhase::Connected,
            message is Sender && old(self).phase() != ConnectionPhase::Connecting ==> reception
                is Rejected && *final(self) == *old(self),
            message is Text ==> final(self).phase() == old(self).phase(),
            message is Text && old(self).phase() != ConnectionPhase::Connected ==> reception
                is Ignored && *final(self) == *old(self),
            message matches ButtplugRemoteClientConnectorMessage::Text(text) ==> old(self).phase()
                == ConnectionPhase::Connected ==> (match decode_spec(text@) {
                None => reception == Reception::Malformed(text) && *final(self) == *old(self),
                Some(units) => reception matches Reception::Delivered(deliveries) && routes_frame(
                    old(self).pending(),
                    units,
                    deliveries@,
                ) && final(self).pending() == old(self).pending().difference(ids_of(units)),
            }),
    {
        match message {
            ButtplugRemoteClientConnectorMessage::Sender(sender) => {
                let mut link = Link::Disconnected;
                core::mem::swap(&mut link, &mut self.link);
                match link {
                    Link::Connecting => {
                        self.link = Link::Connected {
                            sender,
                            sorter: ClientConnectorMessageSorter::new(),
                        };
                        Reception::Attached
                    },
                    other => {
                        self.link = other;
                        let _ = sender.close();
                        Reception::Rejected
                    },
                }
            },
            ButtplugRemoteClientConnectorMessage::Text(text) => {
                match &self.link {
                    Link::Connected { .. } => {},
                    _ => {
                        return Reception::Ignored;
                    },
                }
                match decode_frame(text.as_str()) {
                    None => Reception::Malformed(text),
                    Some(units) => Reception::Delivered(self.deliver(units)),
                }
            },
        }
    }

    /// Sends an encoded request and enters it as waiting under `id`.
    ///
    /// Without a connection the call fails at once with
    /// [`NotConnected`](ButtplugClientConnectorError::NotConnected). Where the
    /// sender refuses the payload the sender's error is passed on and nothing
    /// is entered. An id must not be used again while a request waits under
    /// it.
    pub fn send(&mut self, id: u32, payload: &str) -> (sent: Result<(), ButtplugClientError>)
        requires
            !old(self).pending().contains(id),
        ensures
            final(self).phase() == old(self).phase(),
            old(self).phase() != ConnectionPhase::Connected ==> sent == Err::<
                (),
                ButtplugClientError,
            >(ButtplugClientError::Connector(ButtplugClientConnectorError::NotConnected))
                && *final(self) == *old(self),
            sent is Ok ==> final(self).pending() == old(self).pending().insert(id),
            sent is Err ==> final(self).pending() == old(self).pending(),
            sent matches Err(error) ==> error is Connector,
    {
        let mut link = Link::Disconnected;
        core::mem::swap(&mut link, &mut self.link);
        match link {
            Link::Connected { sender, sorter } => {
                let mut sorter = sorter;
                let outcome = sender.send(payload);
                let sent = sorter.register_sent(id, outcome);
                self.link = Link::Connected { sender, sorter };
                sent
            },
            other => {
                self.link = other;
                Err(ButtplugClientError::Connector(ButtplugClientConnectorError::NotConnected))
            },
        }
    }

    /// Routes the units of one decoded inbound frame: each unit answers the
    /// request that waits under its id, or is an event, or is dropped.
    pub fn deliver(&mut self, units: Vec<InboundUnit>) -> (deliveries: Vec<Delivery>)
        ensures
            final(self).phase() == old(self).phase(),
            routes_frame(old(self).pending(), unit_views(units@), deliveries@),
            final(self).pending() == old(self).pending().difference(ids_of(unit_views(units@))),
    {
        let mut link = Link::Disconnected;
        core::mem::swap(&mut link, &mut self.link);
        match link {
            Link::Connected { sender, sorter } => {
                let mut sorter = sorter;
                let deliveries = sorter.route_frame(units);
                self.link = Link::Connected { sender, sorter };
                deliveries
            },
            other => {
                self.link = other;
                let mut nothing_waits = ClientConnectorMessageSorter::new();
                let deliveries = nothing_waits.route_frame(units);
                assert(self.pending() =~= old(self).pending().difference(
                    ids_of(unit_views(units@)),
                ));
                deliveries
            },
        }
    }

    /// Gives up on a request that got no response in time: if it was waiting
    /// it fails with [`ResponseTimeout`](ButtplugClientConnectorError::ResponseTimeout)
    /// and a response that comes later is dropped.
    pub fn expire(&mut self, id: u32) -> (failed: Option<Delivery>)
        ensures
            final(self).phase() == old(self).phase(),
            final(self).pending() == old(self).pending().remove(id),
            old(self).pending().contains(id) ==> failed == Some(
                Delivery::Failure {
                    id,
                    error: ButtplugClientError::Connector(
                        ButtplugClientConnectorError::ResponseTimeout,
                    ),
                },
            ),
            !old(self).pending().contains(id) ==> failed is None,
    {
        let mut link = Link::Disconnected;
        core::mem::swap(&mut link, &mut self.link);
        match link {
            Link::Connected { sender, sorter } => {
                let mut sorter = sorter;
                let failed = sorter.expire(
                    id,
                    ButtplugClientError::Connector(ButtplugClientConnectorError::ResponseTimeout),
                );
                self.link = Link::Connected { sender, sorter };
                failed
            },
            other => {
                self.link = other;
                assert(self.pending() =~= old(self).pending().remove(id));
                None
            },
        }
    }

    /// Closes the connection from this end.
    ///
    /// The sender, if one is held, is asked to close and let go, and what
    /// it answers is reported as [`close_report`] has it; a connection
    /// attempt that is under way is given up. Every request that was waiting
    /// fails with [`ConnectionClosed`](ButtplugClientError::ConnectionClosed),
    /// so none waits past the disconnect.
    pub fn disconnect(&mut self) -> (disconnection: Disconnection)
        ensures
            final(self).phase() == ConnectionPhase::Disconnected,
            final(self).pending() == Set::<u32>::empty(),
            old(self).phase() != ConnectionPhase::Connected ==> disconnection.error is None,
            closes_all(
                old(self).pending(),
                disconnection.failures@,
                ButtplugClientError::ConnectionClosed,
            ),
    {
        let mut link = Link::Disconnected;
        core::mem::swap(&mut link, &mut self.link);
        match link {
            Link::Connected { sender, sorter } => {
                let mut sorter = sorter;
                let error = close_report(sender.close());
                let failures = sorter.close(ButtplugClientError::ConnectionClosed);
                Disconnection { error, failures }
            },
            _ => {
                let mut nothing_waits = ClientConnectorMessageSorter::new();
                let failures = nothing_waits.close(ButtplugClientError::ConnectionClosed);
                Disconnection { error: None, failures }
            },
        }
    }

    /// Takes note that the transport's event loop has come to its end, with
    /// the result that the websocket library gave for it.
    ///
    /// An event loop that ended with an error means that the transport
    /// failed; one that ended without means that the peer closed the
    /// connection. Either way the connector is disconnected afterwards and
    /// every request that was waiting fails with that error.
    pub fn connection_ended(&mut self, outcome: Result<(), ws::Error>) -> (end: ConnectionEnd)
        ensures
            final(self).phase() == ConnectionPhase::Disconnected,
            final(self).pending() == Set::<u32>::empty(),
            end.error == end_error(outcome is Err),
            closes_all(
                old(self).pending(),
                end.failures@,
                ButtplugClientError::Connector(end.error),
            ),
    {
        let error = match transport_outcome(outcome) {
            Ok(_) => ButtplugClientConnectorError::PeerClosed,
            Err(error) => error,
        };
        let mut link = Link::Disconnected;
        core::mem::swap(&mut link, &mut self.link);
        let failures = match link {
            Link::Connected { sender, sorter } => {
                let mut sorter = sorter;
                sorter.close(ButtplugClientError::Connector(error))
            },
            _ => {
                let mut nothing_waits = ClientConnectorMessageSorter::new();
                nothing_waits.close(ButtplugClientError::Connector(error))
            },
        };
        ConnectionEnd { error, failures }
    }
}

/// Requests wait only on a connection that stands, so a request can be left
/// waiting by nothing but a connector that is connected, and such a connector
/// fails all of them when it disconnects or its connection ends.
pub proof fn lemma_requests_wait_only_while_connected(connector: ButtplugWebsocketClientConnector)
    requires
        connector.phase() != ConnectionPhase::Connected,
    ensures
        connector.pending() == Set::<u32>::empty(),
{
}

/// The error with which a connection ends: a failure of the transport where
/// its event loop reported one, the peer's close where it did not.
pub open spec fn end_error(transport_failed: bool) -> ButtplugClientConnectorError {
    if transport_failed {
        ButtplugClientConnectorError::TransportFailed
    } else {
        ButtplugClientConnectorError::PeerClosed
    }
}

} // verus!
