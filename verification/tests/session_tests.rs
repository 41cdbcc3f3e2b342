use blynk_io::client::Client;
use blynk_io::message::{Message, MessageType, ProtocolStatus};
use blynk_io::session::{
    classify_heartbeat_reply, classify_login_reply, liveness_decision, ping_reply, route, Blynk,
    Event, LivenessAction, RouteDecision, RunStatus,
};
use blynk_io::transport::Transport;
use blynk_io::{BlynkError, ConnectionState};

#[derive(Default)]
struct ScriptedTransport {
    data: Vec<u8>,
    pos: usize,
    written: Vec<Vec<u8>>,
}

impl ScriptedTransport {
    fn with_data(data: Vec<u8>) -> ScriptedTransport {
        ScriptedTransport { data, ..Default::default() }
    }
}

impl Transport for ScriptedTransport {
    fn write_all(&mut self, data: &[u8]) -> bool {
        self.written.push(data.to_vec());
        true
    }

    fn flush(&mut self) -> bool {
        true
    }

    fn peek(&mut self) -> Option<Vec<u8>> {
        Some(self.data[self.pos.min(self.data.len())..].to_vec())
    }

    fn consume(&mut self, amt: usize) {
        self.pos = (self.pos + amt).min(self.data.len());
    }

    fn set_read_timeout(&mut self, _timeout_ms: u64) {}

    fn retry_delay(&mut self) {}

    fn shutdown(&mut self) {}
}

#[derive(Default)]
struct EventsHandler {
    pin_num: u8,
    data: String,
    reads: u32,
    writes: u32,
    internals: u32,
}

impl<T: Transport> Event<T> for EventsHandler {
    fn handle_vpin_read(&mut self, _client: &mut Client<T>, pin_num: u8) {
        self.reads += 1;
        self.pin_num = pin_num
    }

    fn handle_vpin_write(&mut self, _client: &mut Client<T>, pin_num: u8, data: &str) {
        self.writes += 1;
        self.pin_num = pin_num;
        self.data = data.to_string();
    }

    fn handle_internal(&mut self, _client: &mut Client<T>, data: &[String]) {
        self.internals += 1;
        self.data = data.join(" ");
    }
}

#[test]
fn calls_vpinread_handler_with_params() {
    let msg = Message::new(MessageType::Hw, 1, None, None, vec!["vr", "22"]);
    let mut blynk: Blynk<ScriptedTransport, EventsHandler> = Blynk::new("abc".to_string());

    let handler: EventsHandler = Default::default();
    blynk.set_handler(handler);
    blynk.process(msg).unwrap();

    assert_eq!(22, blynk.handler().unwrap().pin_num);
}

#[test]
fn calls_vpinwrite_handler_with_params() {
    let msg = Message::new(MessageType::Hw, 1, None, None, vec!["vw", "42", "my-val"]);
    let mut blynk: Blynk<ScriptedTransport, EventsHandler> = Blynk::new("abc".to_string());

    let handler: EventsHandler = Default::default();
    blynk.set_handler(handler);
    blynk.process(msg).unwrap();

    assert_eq!(42, blynk.handler().unwrap().pin_num);
    assert_eq!("my-val", blynk.handler().unwrap().data);
}

#[test]
fn calls_internal_handler_with_params() {
    let msg = Message::new(
        MessageType::Internal,
        1,
        None,
        None,
        vec!["_internal", "hello", "world"],
    );
    let mut blynk: Blynk<ScriptedTransport, EventsHandler> = Blynk::new("abc".to_string());

    let handler: EventsHandler = Default::default();
    blynk.set_handler(handler);
    blynk.process(msg).unwrap();

    assert_eq!("hello world", blynk.handler().unwrap().data);
}

#[test]
fn dispatch_routes_to_exactly_one_handler() {
    let mut blynk: Blynk<ScriptedTransport, EventsHandler> = Blynk::new("abc".to_string());
    blynk.set_handler(Default::default());

    let vw = Message::new(MessageType::Hw, 1, None, None, vec!["vw", "42", "hello"]);
    blynk.process(vw).unwrap();
    let handler = blynk.handler().unwrap();
    assert_eq!((1, 0, 0), (handler.writes, handler.reads, handler.internals));
    assert_eq!(42, handler.pin_num);
    assert_eq!("hello", handler.data);

    let vr = Message::new(MessageType::Bridge, 2, None, None, vec!["vr", "22"]);
    blynk.process(vr).unwrap();
    let handler = blynk.handler().unwrap();
    assert_eq!((1, 1, 0), (handler.writes, handler.reads, handler.internals));
    assert_eq!(22, handler.pin_num);
}

#[test]
fn unmatched_shapes_are_ignored() {
    let mut blynk: Blynk<ScriptedTransport, EventsHandler> = Blynk::new("abc".to_string());
    blynk.set_handler(Default::default());

    // "vr" with three fields matches neither rule; neither does "xx".
    blynk.process(Message::new(MessageType::Hw, 1, None, None, vec!["vr", "1", "2"])).unwrap();
    blynk.process(Message::new(MessageType::Hw, 2, None, None, vec!["xx", "1"])).unwrap();
    let handler = blynk.handler().unwrap();
    assert_eq!((0, 0, 0), (handler.writes, handler.reads, handler.internals));
}

#[test]
fn bad_pin_number_surfaces_parse_error() {
    let mut blynk: Blynk<ScriptedTransport, EventsHandler> = Blynk::new("abc".to_string());
    blynk.set_handler(Default::default());
    let msg = Message::new(MessageType::Hw, 1, None, None, vec!["vw", "999", "x"]);
    let err = blynk.process(msg).unwrap_err();
    assert!(matches!(err, BlynkError::InvalidMessageBody));
}

#[test]
fn route_decisions_are_exact() {
    let vw = Message::new(MessageType::Hw, 1, None, None, vec!["vw", "42", "hello"]);
    assert_eq!(RouteDecision::VpinWrite(42), route(&vw));
    let vr = Message::new(MessageType::Bridge, 1, None, None, vec!["vr", "22"]);
    assert_eq!(RouteDecision::VpinRead(22), route(&vr));
    let internal = Message::new(MessageType::Internal, 1, None, None, vec!["_internal"]);
    assert_eq!(RouteDecision::Internal, route(&internal));
    let bad = Message::new(MessageType::Hw, 1, None, None, vec!["vw", "256", "x"]);
    assert_eq!(RouteDecision::InvalidPin, route(&bad));
    let ping = Message::new(MessageType::Ping, 1, None, None, vec![]);
    assert_eq!(RouteDecision::Ignore, route(&ping));
}

#[test]
fn ping_reply_reuses_inbound_id() {
    let ping = Message::new(MessageType::Ping, 9, None, None, vec![]);
    assert_eq!(Some((200, 9)), ping_reply(&ping));
    let hw = Message::new(MessageType::Hw, 9, None, None, vec!["vr", "1"]);
    assert_eq!(None, ping_reply(&hw));
}

#[test]
fn ping_is_answered_with_exactly_one_ok_response() {
    let mut blynk: Blynk<ScriptedTransport, EventsHandler> = Blynk::new("abc".to_string());
    blynk.client.set_stream(ScriptedTransport::default());
    let ping = Message::new(MessageType::Ping, 5, None, None, vec![]);
    blynk.process(ping).unwrap();

    let transport = blynk.client.transport.unwrap();
    assert_eq!(1, transport.written.len());
    // five header bytes: type Rsp, the inbound id, status Ok in the value field
    assert_eq!(vec![0, 0, 5, 0, 200], transport.written[0]);
}

#[test]
fn login_reply_classification_is_exact() {
    assert!(classify_login_reply(MessageType::Rsp, Some(ProtocolStatus::StatusOk)).is_ok());
    assert_eq!(
        Err(BlynkError::InvalidAuthToken),
        classify_login_reply(MessageType::Rsp, Some(ProtocolStatus::StatusInvalidToken))
    );
    assert_eq!(
        Err(BlynkError::Redirection),
        classify_login_reply(MessageType::Redirect, Some(ProtocolStatus::StatusOk))
    );
    assert_eq!(
        Err(BlynkError::ProtocolViolation),
        classify_login_reply(MessageType::Rsp, Some(ProtocolStatus::StatusNoData))
    );
    assert_eq!(
        Err(BlynkError::ProtocolViolation),
        classify_login_reply(MessageType::Redirect, Some(ProtocolStatus::StatusNoData))
    );
    assert_eq!(
        Err(BlynkError::ProtocolViolation),
        classify_login_reply(MessageType::Hw, None)
    );
}

#[test]
fn heartbeat_reply_classification_is_exact() {
    assert!(classify_heartbeat_reply(Some(ProtocolStatus::StatusOk)).is_ok());
    assert_eq!(
        Err(BlynkError::HeartbeatSet(ProtocolStatus::StatusNoData)),
        classify_heartbeat_reply(Some(ProtocolStatus::StatusNoData))
    );
    assert_eq!(Err(BlynkError::ProtocolViolation), classify_heartbeat_reply(None));
}

#[test]
fn liveness_rules_are_exact() {
    // heartbeat period 5000 ms: dead strictly beyond 7500 ms of silence
    assert_eq!(LivenessAction::ServerDead, liveness_decision(5000, 7501, 0, 0));
    assert_eq!(LivenessAction::Healthy, liveness_decision(5000, 7500, 0, 0));
    // ping due: over 500 ms since last ping and over 5000 ms since send or receive
    assert_eq!(LivenessAction::SendPing, liveness_decision(5000, 0, 501, 5001));
    assert_eq!(LivenessAction::SendPing, liveness_decision(5000, 5001, 501, 0));
    assert_eq!(LivenessAction::Healthy, liveness_decision(5000, 0, 500, 9999));
    assert_eq!(LivenessAction::Healthy, liveness_decision(5000, 0, 501, 4999));
}

#[test]
fn stale_receive_disconnects_on_next_run() {
    let mut blynk: Blynk<ScriptedTransport, EventsHandler> = Blynk::new("abc".to_string());
    blynk.attach_transport(ScriptedTransport::default());
    blynk.conn_state = ConnectionState::Authenticated;
    blynk.last_rcv_time = 0;
    blynk.last_ping_time = 7990;
    blynk.last_send_time = 7990;

    let status = blynk.run(8000);
    assert_eq!(RunStatus::Disconnected, status);
    assert_eq!(ConnectionState::Disconnected, blynk.conn_state);
    assert!(blynk.client.transport.is_none());
    assert_eq!(0, blynk.client.msg_id);
}

#[test]
fn run_asks_for_connection_when_not_authenticated() {
    let mut blynk: Blynk<ScriptedTransport, EventsHandler> = Blynk::new("abc".to_string());
    assert_eq!(RunStatus::NeedConnect, blynk.run(0));
    assert_eq!(ConnectionState::Disconnected, blynk.conn_state);
}

#[test]
fn handshake_authenticates_and_sets_heartbeat() {
    let mut blynk: Blynk<ScriptedTransport, EventsHandler> = Blynk::new("abc".to_string());
    // two status replies: Ok for the login, Ok for the heartbeat setup
    let replies: Vec<u8> = vec![0, 0, 1, 0, 200, 0, 0, 2, 0, 200];
    blynk.attach_transport(ScriptedTransport::with_data(replies));

    assert!(blynk.handshake(1000).is_ok());
    assert_eq!(ConnectionState::Authenticated, blynk.conn_state);
    assert_eq!(1000, blynk.last_rcv_time);

    let transport = blynk.client.transport.unwrap();
    assert_eq!(2, transport.written.len());
    let expected_login = Message::new(MessageType::Login, 1, None, None, vec!["abc"]).serialize();
    assert_eq!(expected_login, transport.written[0]);
}

#[test]
fn handshake_rejects_invalid_token() {
    let mut blynk: Blynk<ScriptedTransport, EventsHandler> = Blynk::new("abc".to_string());
    let replies: Vec<u8> = vec![0, 0, 1, 0, 9];
    blynk.attach_transport(ScriptedTransport::with_data(replies));

    assert_eq!(Err(BlynkError::InvalidAuthToken), blynk.handshake(1000));
    assert_ne!(ConnectionState::Authenticated, blynk.conn_state);
}

#[test]
fn handshake_surfaces_rejected_heartbeat() {
    let mut blynk: Blynk<ScriptedTransport, EventsHandler> = Blynk::new("abc".to_string());
    let replies: Vec<u8> = vec![0, 0, 1, 0, 200, 0, 0, 2, 0, 17];
    blynk.attach_transport(ScriptedTransport::with_data(replies));

    assert_eq!(
        Err(BlynkError::HeartbeatSet(ProtocolStatus::StatusNoData)),
        blynk.handshake(1000)
    );
}

#[test]
fn run_polls_and_dispatches_one_message() {
    let mut blynk: Blynk<ScriptedTransport, EventsHandler> = Blynk::new("abc".to_string());
    blynk.set_handler(Default::default());
    let inbound = Message::new(MessageType::Hw, 3, None, None, vec!["vw", "7", "on"]).serialize();
    blynk.attach_transport(ScriptedTransport::with_data(inbound));
    blynk.conn_state = ConnectionState::Authenticated;
    blynk.last_rcv_time = 90;
    blynk.last_ping_time = 100;
    blynk.last_send_time = 100;

    let status = blynk.run(100);
    assert_eq!(RunStatus::Polled, status);
    assert_eq!(100, blynk.last_rcv_time);
    let handler = blynk.handler().unwrap();
    assert_eq!(7, handler.pin_num);
    assert_eq!("on", handler.data);
}
