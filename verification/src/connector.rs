//! What the parts of the remote connector bridge say to each other: the
//! failures a caller can meet, the capability to push text at a transport, the
//! messages that cross from the transport's thread, and the units of an
//! inbound frame together with what becomes of them.

use vstd::prelude::*;

verus! {

/// The phase in which the connection let a caller down.
#[derive(Debug, Clone, Copy, PartialEq, Eq, Structural)]
pub enum ButtplugClientConnectorError {
    /// No transport sender has been handed over yet, or it has been let go.
    NotConnected,
    /// The transport could not be set up or refused to take the data.
    TransportFailed,
    /// No response came in time.
    ResponseTimeout,
    /// The peer ended the connection.
    PeerClosed,
}

/// Why a request did not get its response.
#[derive(Debug, Clone, Copy, PartialEq, Eq, Structural)]
pub enum ButtplugClientError {
    /// The connection failed in the given phase.
    Connector(ButtplugClientConnectorError),
    /// The connection was closed while the request was waiting.
    ConnectionClosed,
}

/// The outbound side of one connected transport: push a payload, or close.
///
/// An implementation is shared between the thread that made it and the side
/// that sends, so it has to bear calls from both at once.
pub trait ButtplugRemoteClientConnectorSender: Send + Sync {
    /// Sends one encoded message to the peer.
    fn send(&self, payload: &str) -> Result<(), ButtplugClientConnectorError>;

    /// Asks the transport to close the connection.
    fn close(&self) -> Result<(), ButtplugClientConnectorError>;
}

/// What the transport's thread passes to the bridge. One `Sender` is expected
/// per connection, ahead of any `Text`.
pub enum ButtplugRemoteClientConnectorMessage {
    /// The connection stands; this is the way to send on it.
    Sender(Box<dyn ButtplugRemoteClientConnectorSender>),
    /// The raw text of one inbound frame.
    Text(String),
}

/// One element of an inbound frame: the correlation id it carries, if any,
/// and its encoded content.
#[derive(Debug, Clone, PartialEq, Eq)]
pub struct InboundUnit {
    pub id: Option<u32>,
    pub body: String,
}

/// An [`InboundUnit`] as contracts see it.
pub struct InboundUnitView {
    pub id: Option<u32>,
    pub body: Seq<char>,
}

impl View for InboundUnit {
    type V = InboundUnitView;

    open spec fn view(&self) -> InboundUnitView {
        InboundUnitView { id: self.id, body: self.body@ }
    }
}

/// What is to be done with an inbound unit, or with a request that can no
/// longer be answered.
#[derive(Debug, Clone, PartialEq, Eq)]
pub enum Delivery {
    /// `body` answers the waiting request `id`.
    Response { id: u32, body: String },
    /// `body` was not asked for: it goes to the event subscriber.
    Event { body: String },
    /// The unit answers request `id`, which nobody waits for. It goes nowhere.
    Dropped { id: u32 },
    /// The waiting request `id` fails with `error`.
    Failure { id: u32, error: ButtplugClientError },
}

/// A [`Delivery`] as contracts see it.
pub enum DeliveryView {
    Response { id: u32, body: Seq<char> },
    Event { body: Seq<char> },
    Dropped { id: u32 },
    Failure { id: u32, error: ButtplugClientError },
}

impl View for Delivery {
    type V = DeliveryView;

    open spec fn view(&self) -> DeliveryView {
        match *self {
            Delivery::Response { id, body } => DeliveryView::Response { id, body: body@ },
            Delivery::Event { body } => DeliveryView::Event { body: body@ },
            Delivery::Dropped { id } => DeliveryView::Dropped { id },
            Delivery::Failure { id, error } => DeliveryView::Failure { id, error },
        }
    }
}

/// The views of the units of a frame, in the frame's order.
pub open spec fn unit_views(units: Seq<InboundUnit>) -> Seq<InboundUnitView> {
    Seq::new(units.len(), |i: int| units[i]@)
}

/// The views of a run of deliveries, in order.
pub open spec fn delivery_views(deliveries: Seq<Delivery>) -> Seq<DeliveryView> {
    Seq::new(deliveries.len(), |i: int| deliveries[i]@)
}

} // verus!
