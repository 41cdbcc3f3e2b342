//! The session state machine and the event dispatcher.
//!
//! The session drives connect, authenticate, heartbeat setup, the
//! steady-state keep-alive loop and message dispatch. Everything that needs
//! a socket or a clock is taken as a value: the transport is attached by
//! the caller, and every time-dependent operation receives the current time
//! in milliseconds. A driving loop therefore looks like: call [`Blynk::run`];
//! when it asks for a connection, open one, attach it and run the
//! handshake; sleep briefly; repeat.

use vstd::prelude::*;
use vstd::utf8::*;

use crate::client::{outbound_model, spec_next_id, Client};
use crate::codec::spec_header;
use crate::conf::{
    HEARTBEAT_PERIOD_SECS, RCV_BUFFER_SIZE, READ_POLL_TIMEOUT_MS, SOCK_MAX_TIMEOUT_MS,
};
use crate::config::Config;
use crate::message::{
    spec_is_decode_error, spec_serialize, Message, MessageType, ProtocolStatus,
};
use crate::text::{spec_dec, spec_digit_part, spec_digits_val, spec_parse_ok};
use crate::transport::Transport;
use crate::{BlynkError, ConnectionState, DefaultHandler};

verus! {

/// The hooks an embedding application supplies to react to protocol
/// events. Every hook defaults to a no-op, so implementations override
/// only what they care about.
pub trait Event<T: Transport>: Sized {
    /// Called once a handshake has fully succeeded.
    fn handle_connect(&mut self, client: &mut Client<T>) {
    }

    /// Called when the session disconnects.
    fn handle_disconnect(&mut self) {
    }

    /// Called with the fields of an inbound `Internal` message, without
    /// its leading marker field.
    fn handle_internal(&mut self, client: &mut Client<T>, data: &[String]) {
    }

    /// Called when the server asks for the state of a virtual pin.
    fn handle_vpin_read(&mut self, client: &mut Client<T>, pin_num: u8) {
    }

    /// Called when the server writes a value to a virtual pin.
    fn handle_vpin_write(&mut self, client: &mut Client<T>, pin_num: u8, data: &str) {
    }
}

impl<T: Transport> Event<T> for DefaultHandler {
}

/// What the dispatcher decides to do with an inbound message's body.
#[derive(Clone, Copy, Debug, PartialEq, Eq, Structural)]
pub enum RouteDecision {
    /// Hand the body (minus the marker field) to the internal hook.
    Internal,
    /// Write the carried value to this virtual pin.
    VpinWrite(u8),
    /// Report the state of this virtual pin.
    VpinRead(u8),
    /// The shape asked for a pin write or read but the pin field is not a
    /// number an eight-bit pin can have.
    InvalidPin,
    /// Any other shape is ignored.
    Ignore,
}

/// What the liveness check decides.
#[derive(Clone, Copy, Debug, PartialEq, Eq, Structural)]
pub enum LivenessAction {
    /// Nothing has been received for over one and a half heartbeat
    /// periods: the server is considered dead.
    ServerDead,
    /// The link is quiet enough that a ping should be sent now.
    SendPing,
    /// Nothing to do this round.
    Healthy,
}

/// What one iteration of the steady-state loop did.
#[derive(Clone, Copy, Debug, PartialEq, Eq, Structural)]
pub enum RunStatus {
    /// The session is not authenticated: the caller should open a
    /// transport, attach it and run the handshake.
    NeedConnect,
    /// The liveness check judged the server dead; the session has
    /// disconnected and the caller should back off before reconnecting.
    Disconnected,
    /// One poll was performed (a message may have been dispatched).
    Polled,
}

/// The routing rule for inbound messages: `Internal` goes to the internal
/// hook; a `Hw` or `Bridge` body of at least three fields starting with
/// "vw" is a pin write, one of exactly two fields starting with "vr" is a
/// pin read (in both cases the second field must parse as an eight-bit
/// number); everything else is ignored.
pub open spec fn spec_route(mtype: MessageType, body: Seq<Seq<char>>) -> RouteDecision {
    if mtype == MessageType::Internal {
        RouteDecision::Internal
    } else if mtype == MessageType::Hw || mtype == MessageType::Bridge {
        if body.len() >= 3 && body[0] == "vw"@ {
            if spec_parse_ok(body[1], 255) {
                RouteDecision::VpinWrite(spec_digits_val(spec_digit_part(body[1])) as u8)
            } else {
                RouteDecision::InvalidPin
            }
        } else if body.len() == 2 && body[0] == "vr"@ {
            if spec_parse_ok(body[1], 255) {
                RouteDecision::VpinRead(spec_digits_val(spec_digit_part(body[1])) as u8)
            } else {
                RouteDecision::InvalidPin
            }
        } else {
            RouteDecision::Ignore
        }
    } else {
        RouteDecision::Ignore
    }
}

/// Decides how an inbound message's body is routed; exactly
/// [`spec_route`].
pub fn route(msg: &Message) -> (r: RouteDecision)
    ensures
        r == spec_route(msg@.mtype, msg@.body),
{
    match msg.mtype {
        MessageType::Internal => RouteDecision::Internal,
        MessageType::Hw | MessageType::Bridge => {
            let vw = String::from_str("vw");
            let vr = String::from_str("vr");
            if msg.body.len() >= 3 && msg.body[0] == vw {
                proof {
                    assert(msg@.body[0] == msg.body@[0]@);
                    assert(msg@.body[1] == msg.body@[1]@);
                }
                match crate::text::parse_dec(msg.body[1].as_str(), 255) {
                    Some(v) => RouteDecision::VpinWrite(v as u8),
                    None => RouteDecision::InvalidPin,
                }
            } else if msg.body.len() == 2 && msg.body[0] == vr {
                proof {
                    assert(msg@.body[0] == msg.body@[0]@);
                    assert(msg@.body[1] == msg.body@[1]@);
                }
                match crate::text::parse_dec(msg.body[1].as_str(), 255) {
                    Some(v) => RouteDecision::VpinRead(v as u8),
                    None => RouteDecision::InvalidPin,
                }
            } else {
                proof {
                    if msg.body@.len() >= 1 {
                        assert(msg@.body[0] == msg.body@[0]@);
                    }
                }
                RouteDecision::Ignore
            }
        },
        _ => RouteDecision::Ignore,
    }
}

/// The reply a `Ping` demands: exactly one `Rsp` carrying the Ok status
/// under the inbound message's own id; any other type demands none.
pub fn ping_reply(msg: &Message) -> (r: Option<(u16, u16)>)
    ensures
        msg@.mtype == MessageType::Ping ==> r == Some((200u16, msg@.id)),
        msg@.mtype != MessageType::Ping ==> r is None,
{
    if matches!(msg.mtype, MessageType::Ping) {
        Some((ProtocolStatus::StatusOk.code(), msg.id))
    } else {
        None
    }
}

/// Classifies the reply to a login: an Ok status authenticates — unless
/// the reply is a redirect frame, which fails as a redirection; an
/// invalid-token status rejects the token; everything else (another
/// status, or a reply with no status at all) violates the protocol.
pub fn classify_login_reply(mtype: MessageType, status: Option<ProtocolStatus>) -> (r: Result<
    (),
    BlynkError,
>)
    ensures
        r is Ok <==> status == Some(ProtocolStatus::StatusOk) && mtype != MessageType::Redirect,
        status == Some(ProtocolStatus::StatusOk) && mtype == MessageType::Redirect ==> r == Err::<
            (),
            BlynkError,
        >(BlynkError::Redirection),
        status == Some(ProtocolStatus::StatusInvalidToken) ==> r == Err::<(), BlynkError>(
            BlynkError::InvalidAuthToken,
        ),
        status matches Some(st) ==> st != ProtocolStatus::StatusOk && st
            != ProtocolStatus::StatusInvalidToken ==> r == Err::<(), BlynkError>(
            BlynkError::ProtocolViolation,
        ),
        status is None ==> r == Err::<(), BlynkError>(BlynkError::ProtocolViolation),
{
    match status {
        Some(ProtocolStatus::StatusOk) => {
            if matches!(mtype, MessageType::Redirect) {
                Err(BlynkError::Redirection)
            } else {
                Ok(())
            }
        },
        Some(ProtocolStatus::StatusInvalidToken) => Err(BlynkError::InvalidAuthToken),
        Some(_) => Err(BlynkError::ProtocolViolation),
        None => Err(BlynkError::ProtocolViolation),
    }
}

/// Classifies the acknowledgment of the heartbeat configuration: an Ok
/// status succeeds; any other status is a rejected heartbeat carrying
/// that status; a reply with no status violates the protocol.
pub fn classify_heartbeat_reply(status: Option<ProtocolStatus>) -> (r: Result<(), BlynkError>)
    ensures
        r is Ok <==> status == Some(ProtocolStatus::StatusOk),
        status matches Some(st) ==> st != ProtocolStatus::StatusOk ==> r == Err::<(), BlynkError>(
            BlynkError::HeartbeatSet(st),
        ),
        status is None ==> r == Err::<(), BlynkError>(BlynkError::ProtocolViolation),
{
    match status {
        Some(ProtocolStatus::StatusOk) => Ok(()),
        Some(st) => Err(BlynkError::HeartbeatSet(st)),
        None => Err(BlynkError::ProtocolViolation),
    }
}

/// The elapsed time from `t` to `now`, zero when `t` lies in the future.
pub open spec fn spec_delta(now: u64, t: u64) -> u64 {
    if now >= t {
        (now - t) as u64
    } else {
        0u64
    }
}

/// When a keep-alive ping is due, for the default heartbeat period of
/// 5000 ms: the link is not already judged dead (silence at most 7500 ms),
/// over a tenth of a period has passed since the last ping, and a full
/// period has passed since the last send or the last receive.
pub open spec fn spec_ping_due(now: u64, rcv: u64, ping: u64, send: u64) -> bool {
    spec_delta(now, rcv) <= 7500 && spec_delta(now, ping) > 500 && (spec_delta(now, send) > 5000
        || spec_delta(now, rcv) > 5000)
}

/// The errors a handshake can end with: the connection's own pre-call and
/// send errors, the read and decode errors, and the classification
/// outcomes of the two replies. (Name resolution happens before a
/// transport exists, so its error never appears here.)
pub open spec fn spec_is_handshake_error(e: BlynkError) -> bool {
    ||| e == BlynkError::StreamIsNone
    ||| e == BlynkError::MessageSend
    ||| e == BlynkError::ReaderNotAvailable
    ||| e == BlynkError::Io
    ||| e == BlynkError::EmptyBuffer
    ||| spec_is_decode_error(e)
    ||| e == BlynkError::InvalidAuthToken
    ||| e == BlynkError::Redirection
    ||| e == BlynkError::ProtocolViolation
    ||| e is HeartbeatSet
}

/// The wire bytes of the login frame sent under the given id for the
/// given token.
pub open spec fn spec_login_frame(id: u16, token: Seq<char>) -> Seq<u8> {
    spec_serialize(outbound_model(MessageType::Login, id, seq![token]))
}

/// The wire bytes of the heartbeat-configuration frame sent under the
/// given id, advertising the client version, the inbound buffer size, the
/// heartbeat period and the platform tag.
pub open spec fn spec_heartbeat_frame(id: u16) -> Seq<u8> {
    spec_serialize(
        outbound_model(
            MessageType::Internal,
            id,
            seq![
                "ver"@,
                "0.1.0"@,
                "buff-in"@,
                crate::text::spec_dec(RCV_BUFFER_SIZE as nat),
                "h-beat"@,
                crate::text::spec_dec(HEARTBEAT_PERIOD_SECS as nat),
                "dev"@,
                "rust"@,
            ],
        ),
    )
}

/// The liveness rule over elapsed times: the server is dead when nothing
/// has been received for more than one and a half heartbeat periods —
/// regardless of any ping activity; otherwise a ping is due when a tenth
/// of the period has passed since the last ping and a full period has
/// passed since the last send or the last receive.
pub fn liveness_decision(hbeat_ms: u64, rcv_delta: u64, ping_delta: u64, send_delta: u64) -> (r:
    LivenessAction)
    requires
        hbeat_ms + hbeat_ms / 2 <= u64::MAX,
    ensures
        r == LivenessAction::ServerDead <==> rcv_delta > hbeat_ms + hbeat_ms / 2,
        r == LivenessAction::SendPing <==> (rcv_delta <= hbeat_ms + hbeat_ms / 2 && ping_delta
            > hbeat_ms / 10 && (send_delta > hbeat_ms || rcv_delta > hbeat_ms)),
        r == LivenessAction::Healthy <==> (rcv_delta <= hbeat_ms + hbeat_ms / 2 && !(ping_delta
            > hbeat_ms / 10 && (send_delta > hbeat_ms || rcv_delta > hbeat_ms))),
{
    if rcv_delta > hbeat_ms + hbeat_ms / 2 {
        LivenessAction::ServerDead
    } else if ping_delta > hbeat_ms / 10 && (send_delta > hbeat_ms || rcv_delta > hbeat_ms) {
        LivenessAction::SendPing
    } else {
        LivenessAction::Healthy
    }
}

/// One protocol session: its state, configuration, connection, optional
/// event handler, and the liveness clock (three timestamps, all in
/// milliseconds of the caller's clock).
pub struct Blynk<T: Transport, E: Event<T>> {
    pub conn_state: ConnectionState,
    pub config: Config,
    pub client: Client<T>,
    pub handler: Option<E>,
    pub last_rcv_time: u64,
    pub last_ping_time: u64,
    pub last_send_time: u64,
}

impl<T: Transport, E: Event<T>> Blynk<T, E> {
    /// A fresh, disconnected session that will authenticate with the
    /// given token against the default server.
    pub fn new(auth_token: String) -> (r: Blynk<T, E>)
        ensures
            r.conn_state == ConnectionState::Disconnected,
            r.config.token@ == auth_token@,
            r.config.server@ == "blynk-cloud.com"@,
            r.config.port == 80,
            r.client.msg_id == 0,
            r.client.transport is None,
            r.client.sent@ == Seq::<Seq<u8>>::empty(),
            r.handler is None,
            r.last_rcv_time == 0 && r.last_ping_time == 0 && r.last_send_time == 0,
    {
        let mut config = Config::default();
        config.token = auth_token;
        Blynk {
            conn_state: ConnectionState::Disconnected,
            config,
            client: Client::new(),
            handler: None,
            last_rcv_time: 0,
            last_ping_time: 0,
            last_send_time: 0,
        }
    }

    /// Replaces the configuration.
    pub fn set_config(&mut self, config: Config)
        ensures
            final(self).config == config,
            final(self).conn_state == old(self).conn_state,
            final(self).client == old(self).client,
    {
        self.config = config;
    }

    /// Sets the events handler for incoming events.
    pub fn set_handler(&mut self, hook: E)
        ensures
            final(self).handler is Some,
            final(self).conn_state == old(self).conn_state,
            final(self).client == old(self).client,
    {
        self.handler = Some(hook);
    }

    /// The handler, if one was set.
    pub fn handler(&mut self) -> Option<&mut E> {
        self.handler.as_mut()
    }

    /// Attaches a freshly opened transport: the session is now connecting.
    pub fn attach_transport(&mut self, stream: T)
        ensures
            final(self).conn_state == ConnectionState::Connecting,
            final(self).client.transport is Some,
            final(self).client.msg_id == old(self).client.msg_id,
            final(self).config == old(self).config,
    {
        self.conn_state = ConnectionState::Connecting;
        self.client.set_stream(stream);
    }

    /// Runs the handshake on the attached transport: sends the login with
    /// the configured token, enforces an Ok reply, then sends the
    /// heartbeat configuration and enforces its acknowledgment. On full
    /// success the session is authenticated, exactly the login and
    /// heartbeat frames were handed to the transport (under the first two
    /// freshly allocated ids), the liveness clock is reset to `now_ms`,
    /// and the on-connect hook runs. Any failure leaves the session
    /// unauthenticated except a rejected heartbeat, which arrives after
    /// authentication succeeded; the caller disconnects on any error.
    pub fn handshake(&mut self, now_ms: u64) -> (r: Result<(), BlynkError>)
        requires
            encode_utf8(self.config.token@).len() <= 0xFFFF,
        ensures
            r is Ok ==> final(self).conn_state == ConnectionState::Authenticated && final(self).last_rcv_time == now_ms,
            r is Ok && old(self).handler is None ==> final(self).client.sent@ == old(self).client.sent@.push(
                spec_login_frame(spec_next_id(old(self).client.msg_id), old(self).config.token@),
            ).push(spec_heartbeat_frame(spec_next_id(spec_next_id(old(self).client.msg_id))))
                && final(self).client.msg_id == spec_next_id(
                spec_next_id(old(self).client.msg_id),
            ),
            old(self).client.transport is None ==> r == Err::<(), BlynkError>(
                BlynkError::StreamIsNone,
            ),
            r matches Err(e) ==> spec_is_handshake_error(e),
            r == Err::<(), BlynkError>(BlynkError::InvalidAuthToken) || r == Err::<(), BlynkError>(
                BlynkError::Redirection,
            ) ==> final(self).conn_state == ConnectionState::Authenticating,
    {
        self.conn_state = ConnectionState::Authenticating;
        self.last_send_time = now_ms;
        let token = self.config.token.clone();
        match self.client.login(token.as_str()) {
            Ok(_) => {},
            Err(e) => {
                return Err(e);
            },
        }
        let reply = match self.client.read() {
            Ok(m) => m,
            Err(e) => {
                return Err(e);
            },
        };
        match classify_login_reply(reply.mtype, reply.status) {
            Ok(_) => {},
            Err(e) => {
                return Err(e);
            },
        }
        self.conn_state = ConnectionState::Authenticated;
        self.last_send_time = now_ms;
        match self.client.heartbeat(HEARTBEAT_PERIOD_SECS, RCV_BUFFER_SIZE) {
            Ok(_) => {},
            Err(e) => {
                return Err(e);
            },
        }
        self.client.set_read_timeout(SOCK_MAX_TIMEOUT_MS);
        let ack = match self.client.read() {
            Ok(m) => m,
            Err(e) => {
                return Err(e);
            },
        };
        match classify_heartbeat_reply(ack.status) {
            Ok(_) => {},
            Err(e) => {
                return Err(e);
            },
        }
        self.last_rcv_time = now_ms;
        match &mut self.handler {
            Some(hook) => {
                hook.handle_connect(&mut self.client);
            },
            None => {},
        }
        Ok(())
    }

    /// Disconnects: runs the on-disconnect hook, shuts the transport
    /// down, resets the id counter, and marks the session disconnected.
    /// The caller is expected to back off before reconnecting.
    pub fn disconnect(&mut self)
        ensures
            final(self).conn_state == ConnectionState::Disconnected,
            final(self).client.msg_id == 0,
            final(self).client.transport is None,
            final(self).config == old(self).config,
            final(self).last_rcv_time == old(self).last_rcv_time,
            final(self).last_ping_time == old(self).last_ping_time,
            final(self).last_send_time == old(self).last_send_time,
    {
        match &mut self.handler {
            Some(hook) => {
                hook.handle_disconnect();
            },
            None => {},
        }
        self.client.disconnect();
        self.conn_state = ConnectionState::Disconnected;
    }

    /// The liveness check: judges the server dead — sending nothing and
    /// changing nothing — when nothing has been received for over one and
    /// a half heartbeat periods; otherwise sends exactly one ping when one
    /// is due, resetting the ping clock exactly on success (a failed ping
    /// also counts as a dead server); otherwise changes nothing. Returns
    /// whether the server is considered alive.
    pub fn is_server_alive(&mut self, now_ms: u64) -> (r: bool)
        ensures
            final(self).conn_state == old(self).conn_state,
            final(self).last_rcv_time == old(self).last_rcv_time,
            spec_delta(now_ms, old(self).last_rcv_time) > 5000 + 2500 ==> r == false && *final(self) == *old(self),
            (spec_delta(now_ms, old(self).last_rcv_time) <= 7500 && !spec_ping_due(
                now_ms,
                old(self).last_rcv_time,
                old(self).last_ping_time,
                old(self).last_send_time,
            )) ==> r == true && *final(self) == *old(self),
            spec_ping_due(
                now_ms,
                old(self).last_rcv_time,
                old(self).last_ping_time,
                old(self).last_send_time,
            ) ==> {
                &&& final(self).client.msg_id == spec_next_id(old(self).client.msg_id)
                &&& final(self).last_send_time == now_ms
                &&& old(self).client.transport is Some ==> final(self).client.sent@ == old(self).client.sent@.push(
                    spec_serialize(
                        outbound_model(
                            MessageType::Ping,
                            spec_next_id(old(self).client.msg_id),
                            Seq::empty(),
                        ),
                    ),
                )
                &&& old(self).client.transport is None ==> r == false && final(self).client.sent
                    == old(self).client.sent
                &&& r == true ==> final(self).last_ping_time == now_ms
                &&& r == false ==> final(self).last_ping_time == old(self).last_ping_time
            },
    {
        let hbeat_ms: u64 = HEARTBEAT_PERIOD_SECS * 1000;
        let rcv_delta = if now_ms >= self.last_rcv_time {
            now_ms - self.last_rcv_time
        } else {
            0
        };
        let ping_delta = if now_ms >= self.last_ping_time {
            now_ms - self.last_ping_time
        } else {
            0
        };
        let send_delta = if now_ms >= self.last_send_time {
            now_ms - self.last_send_time
        } else {
            0
        };
        match liveness_decision(hbeat_ms, rcv_delta, ping_delta, send_delta) {
            LivenessAction::ServerDead => false,
            LivenessAction::SendPing => {
                self.last_send_time = now_ms;
                if self.client.ping().is_err() {
                    return false;
                }
                self.last_ping_time = now_ms;
                true
            },
            LivenessAction::Healthy => true,
        }
    }

    /// One read attempt: polls the transport with a short timeout and, if
    /// a message arrived, marks the receive time and dispatches it. A poll
    /// miss or a malformed frame makes the iteration a no-op.
    pub fn read_response(&mut self, now_ms: u64)
        ensures
            final(self).conn_state == old(self).conn_state,
            final(self).last_ping_time == old(self).last_ping_time,
            final(self).last_send_time == old(self).last_send_time,
            final(self).config == old(self).config,
            final(self).last_rcv_time == old(self).last_rcv_time || final(self).last_rcv_time
                == now_ms,
    {
        self.client.set_read_timeout(READ_POLL_TIMEOUT_MS);
        match self.client.read() {
            Ok(msg) => {
                self.last_rcv_time = now_ms;
                let _ignored = self.process(msg);
            },
            Err(_) => {},
        }
    }

    /// One iteration of the steady-state loop. When the session is not
    /// authenticated it only asks the caller to connect. Otherwise it
    /// runs the liveness check first — disconnecting, without reading,
    /// when the server is judged dead, in particular always when more
    /// than one and a half heartbeat periods have passed since the last
    /// receive, regardless of ping activity — and then polls for one
    /// message and dispatches it. On quiet, recently-pinged, recently-fed
    /// sessions the iteration always completes as a poll.
    pub fn run(&mut self, now_ms: u64) -> (r: RunStatus)
        ensures
            old(self).conn_state != ConnectionState::Authenticated ==> r == RunStatus::NeedConnect
                && *final(self) == *old(self),
            r == RunStatus::Disconnected ==> final(self).conn_state
                == ConnectionState::Disconnected && final(self).client.transport is None && final(self).client.msg_id == 0,
            (old(self).conn_state == ConnectionState::Authenticated && spec_delta(
                now_ms,
                old(self).last_rcv_time,
            ) > 7500) ==> r == RunStatus::Disconnected,
            (old(self).conn_state == ConnectionState::Authenticated && spec_delta(
                now_ms,
                old(self).last_rcv_time,
            ) <= 7500 && spec_delta(now_ms, old(self).last_ping_time) <= 500) ==> r
                == RunStatus::Polled,
            r == RunStatus::Polled ==> final(self).conn_state == ConnectionState::Authenticated,
    {
        if !matches!(self.conn_state, ConnectionState::Authenticated) {
            return RunStatus::NeedConnect;
        }
        if !self.is_server_alive(now_ms) {
            self.disconnect();
            return RunStatus::Disconnected;
        }
        self.read_response(now_ms);
        RunStatus::Polled
    }

    /// Dispatches one inbound message: a `Ping` is answered first with
    /// exactly one Ok-status response under the inbound id (the status
    /// travels in the header `value` field; the reply has no body); then,
    /// when a handler is set, the message is routed to the matching hook
    /// ([`spec_route`]), a pin write or read whose pin field does not
    /// parse is surfaced as a malformed body before any hook runs, and an
    /// unmatched shape changes nothing. Without a handler nothing is
    /// routed.
    pub fn process(&mut self, msg: Message) -> (r: Result<(), BlynkError>)
        requires
            msg@.mtype == MessageType::Internal ==> msg@.body.len() >= 1,
        ensures
            final(self).conn_state == old(self).conn_state,
            final(self).last_rcv_time == old(self).last_rcv_time,
            final(self).last_ping_time == old(self).last_ping_time,
            final(self).last_send_time == old(self).last_send_time,
            final(self).config == old(self).config,
            (msg@.mtype != MessageType::Ping && old(self).handler is None) ==> *final(self)
                == *old(self) && r is Ok,
            (msg@.mtype != MessageType::Ping && spec_route(msg@.mtype, msg@.body)
                == RouteDecision::Ignore) ==> *final(self) == *old(self) && r is Ok,
            spec_route(msg@.mtype, msg@.body) == RouteDecision::InvalidPin && old(self).handler is Some ==> r == Err::<(), BlynkError>(BlynkError::InvalidMessageBody)
                && *final(self) == *old(self),
            msg@.mtype == MessageType::Ping && old(self).client.transport is Some ==> final(self).client.sent@ == old(self).client.sent@.push(
                spec_header(MessageType::Rsp.spec_code(), msg@.id, 200),
            ) && (r is Ok || r == Err::<(), BlynkError>(BlynkError::MessageSend)),
            msg@.mtype == MessageType::Ping && old(self).client.transport is None ==> r == Err::<
                (),
                BlynkError,
            >(BlynkError::StreamIsNone) && final(self).client.sent == old(self).client.sent,
            msg@.mtype == MessageType::Ping ==> final(self).handler == old(self).handler && final(self).client.msg_id == old(self).client.msg_id,
            old(self).handler is None ==> r is Ok || r == Err::<(), BlynkError>(
                BlynkError::StreamIsNone,
            ) || r == Err::<(), BlynkError>(BlynkError::MessageSend),
    {
        match ping_reply(&msg) {
            Some((status, reply_id)) => {
                match self.client.response(status, reply_id) {
                    Ok(_) => {},
                    Err(e) => {
                        return Err(e);
                    },
                }
            },
            None => {},
        }
        let decision = route(&msg);
        match &mut self.handler {
            Some(hook) => {
                match decision {
                    RouteDecision::Internal => {
                        let data = vstd::slice::slice_subrange(
                            msg.body.as_slice(),
                            1,
                            msg.body.len(),
                        );
                        hook.handle_internal(&mut self.client, data);
                    },
                    RouteDecision::VpinWrite(pin) => {
                        hook.handle_vpin_write(&mut self.client, pin, msg.body[2].as_str());
                    },
                    RouteDecision::VpinRead(pin) => {
                        hook.handle_vpin_read(&mut self.client, pin);
                    },
                    RouteDecision::InvalidPin => {
                        return Err(BlynkError::InvalidMessageBody);
                    },
                    RouteDecision::Ignore => {},
                }
            },
            None => {},
        }
        Ok(())
    }
}

} // verus!
