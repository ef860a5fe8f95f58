use buttplug::connector::{
    ButtplugClientConnectorError, ButtplugClientError, ButtplugRemoteClientConnectorMessage,
    ButtplugRemoteClientConnectorSender, Delivery, InboundUnit,
};
use buttplug::wire::frame;
use buttplug::wsconnector::{
    close_code, close_report, transport_outcome, ButtplugWebsocketClientConnector,
    ButtplugWebsocketWrappedSender, ConnectionEnd, ConnectionPhase, Disconnection, Reception,
    CONNECTION,
};
use std::sync::{Arc, Mutex};

/// What a recording sender has been asked to do.
#[derive(Default)]
struct Wire {
    sent: Vec<String>,
    closes: u32,
}

struct RecordingSender {
    wire: Arc<Mutex<Wire>>,
    failing: bool,
}

impl ButtplugRemoteClientConnectorSender for RecordingSender {
    fn send(&self, payload: &str) -> Result<(), ButtplugClientConnectorError> {
        if self.failing {
            return Err(ButtplugClientConnectorError::TransportFailed);
        }
        self.wire.lock().unwrap().sent.push(frame(payload));
        Ok(())
    }

    fn close(&self) -> Result<(), ButtplugClientConnectorError> {
        self.wire.lock().unwrap().closes += 1;
        if self.failing {
            return Err(ButtplugClientConnectorError::TransportFailed);
        }
        Ok(())
    }
}

fn sender_message(wire: &Arc<Mutex<Wire>>, failing: bool) -> ButtplugRemoteClientConnectorMessage {
    ButtplugRemoteClientConnectorMessage::Sender(Box::new(RecordingSender {
        wire: wire.clone(),
        failing,
    }))
}

fn connected(wire: &Arc<Mutex<Wire>>) -> ButtplugWebsocketClientConnector {
    let mut connector = ButtplugWebsocketClientConnector::new();
    assert!(connector.connect().is_none());
    assert_eq!(connector.receive(sender_message(wire, false)), Reception::Attached);
    connector
}

fn text(frame: &str) -> ButtplugRemoteClientConnectorMessage {
    ButtplugRemoteClientConnectorMessage::Text(frame.to_string())
}

fn unit(id: Option<u32>, body: &str) -> InboundUnit {
    InboundUnit { id, body: body.to_string() }
}

fn request(id: u32) -> String {
    let mut members = serde_json::Map::new();
    members.insert("id".to_string(), serde_json::Value::from(id));
    serde_json::Value::Object(members).to_string()
}

#[test]
fn test_websocket() {
    assert!(ButtplugWebsocketClientConnector::new().connect().is_none());
}

#[test]
fn test_client_websocket() {
    println!("connecting");
    let client_name = "test client";
    let mut connector = ButtplugWebsocketClientConnector::new();
    connector.connect();
    println!("connected");
    assert_eq!(client_name, "test client");
    assert_eq!(connector.status(), ConnectionPhase::Connecting);
}

#[test]
fn connector_dials_the_local_server() {
    assert_eq!(CONNECTION, "ws://127.0.0.1:12345");
}

#[test]
fn new_connector_is_disconnected() {
    let connector = ButtplugWebsocketClientConnector::new();
    assert_eq!(connector.status(), ConnectionPhase::Disconnected);
    assert!(!connector.is_pending(1));
}

#[test]
fn connect_twice_is_connect_once() {
    let mut connector = ButtplugWebsocketClientConnector::new();
    assert!(connector.connect().is_none());
    assert_eq!(connector.status(), ConnectionPhase::Connecting);
    assert!(connector.connect().is_none());
    assert_eq!(connector.status(), ConnectionPhase::Connecting);
    let wire = Arc::new(Mutex::new(Wire::default()));
    assert_eq!(connector.receive(sender_message(&wire, false)), Reception::Attached);
    assert!(connector.connect().is_none());
    assert_eq!(connector.status(), ConnectionPhase::Connected);
}

#[test]
fn send_before_the_sender_arrived_fails_with_not_connected() {
    let not_connected =
        Err(ButtplugClientError::Connector(ButtplugClientConnectorError::NotConnected));
    let mut connector = ButtplugWebsocketClientConnector::new();
    assert_eq!(connector.send(1, &request(1)), not_connected);
    connector.connect();
    assert_eq!(connector.send(1, &request(1)), not_connected);
    assert!(!connector.is_pending(1));
}

#[test]
fn send_frames_the_request_and_leaves_it_waiting() {
    let wire = Arc::new(Mutex::new(Wire::default()));
    let mut connector = connected(&wire);
    assert_eq!(connector.send(7, "{\"id\":7}"), Ok(()));
    assert!(connector.is_pending(7));
    assert_eq!(wire.lock().unwrap().sent, vec!["[{\"id\":7}]".to_string()]);
}

#[test]
fn refused_payload_fails_the_send_and_nothing_waits() {
    let wire = Arc::new(Mutex::new(Wire::default()));
    let mut connector = ButtplugWebsocketClientConnector::new();
    connector.connect();
    connector.receive(sender_message(&wire, true));
    assert_eq!(
        connector.send(7, &request(7)),
        Err(ButtplugClientError::Connector(ButtplugClientConnectorError::TransportFailed))
    );
    assert!(!connector.is_pending(7));
    assert_eq!(connector.status(), ConnectionPhase::Connected);
}

#[test]
fn response_resolves_the_request_and_its_duplicate_is_dropped() {
    let wire = Arc::new(Mutex::new(Wire::default()));
    let mut connector = connected(&wire);
    assert_eq!(connector.send(7, &request(7)), Ok(()));

    assert_eq!(
        connector.receive(text("[{\"id\":7,\"ok\":true}]")),
        Reception::Delivered(vec![Delivery::Response {
            id: 7,
            body: "{\"id\":7,\"ok\":true}".to_string()
        }])
    );
    assert!(!connector.is_pending(7));

    assert_eq!(
        connector.receive(text("[{\"id\":7,\"ok\":false}]")),
        Reception::Delivered(vec![Delivery::Dropped { id: 7 }])
    );
}

#[test]
fn frame_with_a_response_and_an_event_routes_both() {
    let wire = Arc::new(Mutex::new(Wire::default()));
    let mut connector = connected(&wire);
    connector.send(3, &request(3)).unwrap();
    assert_eq!(
        connector.receive(text("[{\"id\":3,\"ok\":true},{\"device\":\"added\"}]")),
        Reception::Delivered(vec![
            Delivery::Response { id: 3, body: "{\"id\":3,\"ok\":true}".to_string() },
            Delivery::Event { body: "{\"device\":\"added\"}".to_string() },
        ])
    );
    assert!(!connector.is_pending(3));
}

#[test]
fn decoded_units_are_routed_by_their_ids() {
    let wire = Arc::new(Mutex::new(Wire::default()));
    let mut connector = connected(&wire);
    connector.send(3, &request(3)).unwrap();
    let units = vec![unit(Some(4), "stray"), unit(Some(3), "answer"), unit(None, "event")];
    assert_eq!(
        connector.deliver(units),
        vec![
            Delivery::Dropped { id: 4 },
            Delivery::Response { id: 3, body: "answer".to_string() },
            Delivery::Event { body: "event".to_string() },
        ]
    );
}

#[test]
fn empty_frame_delivers_nothing_and_leaves_requests_waiting() {
    let wire = Arc::new(Mutex::new(Wire::default()));
    let mut connector = connected(&wire);
    connector.send(3, &request(3)).unwrap();
    assert_eq!(connector.receive(text("[]")), Reception::Delivered(Vec::new()));
    assert!(connector.is_pending(3));
}

#[test]
fn text_that_is_not_a_frame_is_handed_back() {
    let wire = Arc::new(Mutex::new(Wire::default()));
    let mut connector = connected(&wire);
    connector.send(3, &request(3)).unwrap();
    assert_eq!(
        connector.receive(text("{\"id\":3}")),
        Reception::Malformed("{\"id\":3}".to_string())
    );
    assert_eq!(
        connector.receive(text("[{\"id\":3}")),
        Reception::Malformed("[{\"id\":3}".to_string())
    );
    assert!(connector.is_pending(3));
}

#[test]
fn disconnect_fails_the_outstanding_request_at_once() {
    let wire = Arc::new(Mutex::new(Wire::default()));
    let mut connector = connected(&wire);
    assert_eq!(connector.send(9, &request(9)), Ok(()));
    let disconnection = connector.disconnect();
    assert_eq!(
        disconnection,
        Disconnection {
            error: None,
            failures: vec![Delivery::Failure {
                id: 9,
                error: ButtplugClientError::ConnectionClosed
            }],
        }
    );
    assert_eq!(wire.lock().unwrap().closes, 1);
    assert_eq!(connector.status(), ConnectionPhase::Disconnected);
    assert!(!connector.is_pending(9));
    assert_eq!(
        connector.send(10, &request(10)),
        Err(ButtplugClientError::Connector(ButtplugClientConnectorError::NotConnected))
    );
}

#[test]
fn disconnect_without_a_connection_has_nothing_to_do() {
    let mut connector = ButtplugWebsocketClientConnector::new();
    assert_eq!(connector.disconnect(), Disconnection { error: None, failures: Vec::new() });
    assert_eq!(connector.status(), ConnectionPhase::Disconnected);
}

#[test]
fn disconnect_reports_a_close_that_the_transport_refused() {
    let wire = Arc::new(Mutex::new(Wire::default()));
    let mut connector = ButtplugWebsocketClientConnector::new();
    connector.connect();
    connector.receive(sender_message(&wire, true));
    let disconnection = connector.disconnect();
    assert_eq!(disconnection.error, Some(ButtplugClientConnectorError::TransportFailed));
    assert_eq!(connector.status(), ConnectionPhase::Disconnected);
}

#[test]
fn sender_that_arrives_after_a_disconnect_is_closed_and_let_go() {
    let wire = Arc::new(Mutex::new(Wire::default()));
    let mut connector = ButtplugWebsocketClientConnector::new();
    connector.connect();
    connector.disconnect();
    assert_eq!(connector.receive(sender_message(&wire, false)), Reception::Rejected);
    assert_eq!(wire.lock().unwrap().closes, 1);
    assert_eq!(connector.status(), ConnectionPhase::Disconnected);
}

#[test]
fn second_sender_is_rejected() {
    let wire = Arc::new(Mutex::new(Wire::default()));
    let mut connector = connected(&wire);
    let other = Arc::new(Mutex::new(Wire::default()));
    assert_eq!(connector.receive(sender_message(&other, false)), Reception::Rejected);
    assert_eq!(other.lock().unwrap().closes, 1);
    connector.send(1, "one").unwrap();
    assert_eq!(wire.lock().unwrap().sent, vec!["[one]".to_string()]);
    assert!(other.lock().unwrap().sent.is_empty());
}

#[test]
fn text_without_a_connection_is_ignored() {
    let mut connector = ButtplugWebsocketClientConnector::new();
    assert_eq!(connector.receive(text("[]")), Reception::Ignored);
    connector.connect();
    assert_eq!(connector.receive(text("[{\"id\":1}]")), Reception::Ignored);
}

#[test]
fn timed_out_request_fails_and_its_late_response_is_dropped() {
    let wire = Arc::new(Mutex::new(Wire::default()));
    let mut connector = connected(&wire);
    connector.send(5, &request(5)).unwrap();
    assert_eq!(
        connector.expire(5),
        Some(Delivery::Failure {
            id: 5,
            error: ButtplugClientError::Connector(ButtplugClientConnectorError::ResponseTimeout),
        })
    );
    assert_eq!(connector.expire(5), None);
    assert_eq!(
        connector.receive(text("[{\"id\":5}]")),
        Reception::Delivered(vec![Delivery::Dropped { id: 5 }])
    );
}

#[test]
fn peer_close_fails_the_waiting_requests() {
    let wire = Arc::new(Mutex::new(Wire::default()));
    let mut connector = connected(&wire);
    connector.send(2, &request(2)).unwrap();
    let end = connector.connection_ended(Ok(()));
    assert_eq!(
        end,
        ConnectionEnd {
            error: ButtplugClientConnectorError::PeerClosed,
            failures: vec![Delivery::Failure {
                id: 2,
                error: ButtplugClientError::Connector(ButtplugClientConnectorError::PeerClosed),
            }],
        }
    );
    assert_eq!(connector.status(), ConnectionPhase::Disconnected);
}

#[test]
fn transport_that_could_not_connect_surfaces_as_transport_failed() {
    let mut connector = ButtplugWebsocketClientConnector::new();
    connector.connect();
    let failure = ws::Error::new(ws::ErrorKind::Internal, "unable to connect");
    let end = connector.connection_ended(Err(failure));
    assert_eq!(
        end,
        ConnectionEnd {
            error: ButtplugClientConnectorError::TransportFailed,
            failures: Vec::new()
        }
    );
    assert_eq!(connector.status(), ConnectionPhase::Disconnected);
}

#[test]
fn transport_outcome_maps_every_failure_to_transport_failed() {
    assert_eq!(transport_outcome(Ok(())), Ok(()));
    assert_eq!(
        transport_outcome(Err(ws::Error::new(ws::ErrorKind::Capacity, "full"))),
        Err(ButtplugClientConnectorError::TransportFailed)
    );
    assert_eq!(
        transport_outcome(Err(ws::Error::new(ws::ErrorKind::Protocol, "bad frame"))),
        Err(ButtplugClientConnectorError::TransportFailed)
    );
}

#[test]
fn wrapped_sender_queues_the_framed_payload_on_the_websocket() {
    let (commands, queue) = mio::channel::sync_channel(4);
    let wrapped = ButtplugWebsocketWrappedSender::new(ws::Sender::new(mio::Token(3), commands, 1));
    assert_eq!(wrapped.send("{\"id\":7}"), Ok(()));
    let command = queue.try_recv().unwrap();
    assert_eq!(command.token(), mio::Token(3));
    let signal = format!("{:?}", command.into_signal());
    assert_eq!(signal, format!("Message(Text({:?}))", "[{\"id\":7}]"));
    assert!(queue.try_recv().is_err());
}

#[test]
fn wrapped_sender_queues_a_normal_close() {
    let (commands, queue) = mio::channel::sync_channel(4);
    let wrapped = ButtplugWebsocketWrappedSender::new(ws::Sender::new(mio::Token(3), commands, 1));
    assert_eq!(wrapped.close(), Ok(()));
    let signal = format!("{:?}", queue.try_recv().unwrap().into_signal());
    assert_eq!(signal, "Close(Normal, \"\")");
}

#[test]
fn wrapped_sender_reports_a_dead_event_loop_as_transport_failed() {
    let (commands, queue) = mio::channel::sync_channel(4);
    let wrapped = ButtplugWebsocketWrappedSender::new(ws::Sender::new(mio::Token(3), commands, 1));
    drop(queue);
    assert_eq!(wrapped.send("{}"), Err(ButtplugClientConnectorError::TransportFailed));
    assert_eq!(wrapped.close(), Err(ButtplugClientConnectorError::TransportFailed));
}

#[test]
fn connector_runs_over_a_real_websocket_sender() {
    let (commands, queue) = mio::channel::sync_channel(4);
    let wrapped = ButtplugWebsocketWrappedSender::new(ws::Sender::new(mio::Token(0), commands, 0));
    let mut connector = ButtplugWebsocketClientConnector::new();
    connector.connect();
    let handle = ButtplugRemoteClientConnectorMessage::Sender(Box::new(wrapped));
    assert_eq!(connector.receive(handle), Reception::Attached);
    assert_eq!(connector.send(7, "{\"id\":7}"), Ok(()));
    let signal = format!("{:?}", queue.try_recv().unwrap().into_signal());
    assert_eq!(signal, format!("Message(Text({:?}))", "[{\"id\":7}]"));
    let disconnection = connector.disconnect();
    assert_eq!(disconnection.error, None);
    let signal = format!("{:?}", queue.try_recv().unwrap().into_signal());
    assert_eq!(signal, "Close(Normal, \"\")");
}

#[test]
fn websocket_is_closed_with_the_normal_code() {
    assert_eq!(close_code(), ws::CloseCode::Normal);
}

#[test]
fn close_report_passes_the_sender_s_answer_on() {
    assert_eq!(close_report(Ok(())), None);
    assert_eq!(
        close_report(Err(ButtplugClientConnectorError::TransportFailed)),
        Some(ButtplugClientConnectorError::TransportFailed)
    );
    assert_eq!(
        close_report(Err(ButtplugClientConnectorError::PeerClosed)),
        Some(ButtplugClientConnectorError::PeerClosed)
    );
}
