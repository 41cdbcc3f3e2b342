//! The connection: owns the transport and the monotone message-id counter,
//! and offers one send operation per protocol verb plus one read operation
//! that decodes a single frame.
//!
//! Every frame handed to the transport is recorded in the ghost `sent`
//! log, so each verb's contract states the exact bytes it queues.

use vstd::prelude::*;
use vstd::utf8::*;

use crate::codec::{spec_header, ProtocolHeader, HEADER_SIZE};
use crate::conf::RETRIES_TX_MAX_NUM;
use crate::message::{
    lemma_joined_bytes_len_bound, spec_deserilize, spec_frame_len, spec_is_decode_error,
    spec_joined_bytes, spec_serialize, Message, MessageModel, MessageType,
};
use crate::text::{spec_dec, u64_to_string};
use crate::transport::Transport;
use crate::BlynkError;

verus! {

/// The version tag this client advertises during heartbeat setup.
pub fn client_version() -> (r: &'static str)
    ensures
        r@ == "0.1.0"@,
{
    "0.1.0"
}

/// The id a fresh locally-originated message gets when the previous one
/// used `id`: the counter is pre-incremented, skipping the reserved id 0
/// when it wraps.
pub open spec fn spec_next_id(id: u16) -> u16 {
    if id == 0xFFFF {
        1u16
    } else {
        (id + 1) as u16
    }
}

/// Id monotonicity: successive locally-originated sends allocate strictly
/// increasing ids until the counter wraps, and never allocate id 0.
pub proof fn lemma_id_monotone(id: u16)
    ensures
        spec_next_id(id) != 0,
        id < 0xFFFF ==> spec_next_id(id) > id,
{
}

/// The model of a locally-originated message: no size, no status, just a
/// verb, an id and a body.
pub open spec fn outbound_model(mtype: MessageType, id: u16, body: Seq<Seq<char>>) -> MessageModel {
    MessageModel { mtype, id, size: None, status: None, body }
}

/// State of the connection: the id counter for locally-originated
/// messages, the transport while one is attached, and four ghost records
/// of the traffic: every frame handed to the transport for sending, the
/// count of write attempts made, every buffer the transport's peek handed
/// back, and every byte count marked consumed.
pub struct Client<T: Transport> {
    pub msg_id: u16,
    pub transport: Option<T>,
    pub sent: Ghost<Seq<Seq<u8>>>,
    pub attempts: Ghost<nat>,
    pub peeked: Ghost<Seq<Seq<u8>>>,
    pub consumed: Ghost<Seq<nat>>,
}

impl<T: Transport> Client<T> {
    /// A fresh connection: id counter at zero, no transport attached,
    /// nothing sent or read.
    pub fn new() -> (r: Client<T>)
        ensures
            r.msg_id == 0,
            r.transport is None,
            r.sent@ == Seq::<Seq<u8>>::empty(),
            r.attempts@ == 0,
            r.peeked@ == Seq::<Seq<u8>>::empty(),
            r.consumed@ == Seq::<nat>::empty(),
    {
        Client {
            msg_id: 0,
            transport: None,
            sent: Ghost(Seq::empty()),
            attempts: Ghost(0),
            peeked: Ghost(Seq::empty()),
            consumed: Ghost(Seq::empty()),
        }
    }

    /// Attaches a transport, keeping the id counter and the send log.
    pub fn set_stream(&mut self, stream: T)
        ensures
            final(self).msg_id == old(self).msg_id,
            final(self).transport is Some,
            final(self).sent == old(self).sent,
    {
        self.transport = Some(stream);
    }

    /// Forwards the read timeout to the transport, if one is attached.
    pub fn set_read_timeout(&mut self, timeout_ms: u64)
        ensures
            final(self).msg_id == old(self).msg_id,
            final(self).sent == old(self).sent,
            final(self).transport is Some <==> old(self).transport is Some,
    {
        match self.transport.take() {
            Some(mut t) => {
                t.set_read_timeout(timeout_ms);
                self.transport = Some(t);
            },
            None => {},
        }
    }

    /// Allocates a fresh message id by pre-incrementing the counter; the
    /// result is never zero.
    pub fn msg_id(&mut self) -> (r: u16)
        ensures
            final(self).msg_id == spec_next_id(old(self).msg_id),
            r == final(self).msg_id,
            r != 0,
            final(self).transport == old(self).transport,
            final(self).sent == old(self).sent,
    {
        if self.msg_id == 0xFFFF {
            self.msg_id = 1;
        } else {
            self.msg_id = self.msg_id + 1;
        }
        self.msg_id
    }

    /// Hands one serialised frame to the transport: write then flush, with
    /// up to [`RETRIES_TX_MAX_NUM`] attempts and a pause between them.
    /// Fails with `StreamIsNone` when no transport is attached (recording
    /// nothing), and with `MessageSend` exactly when every attempt failed —
    /// the attempt counter then shows precisely the configured number of
    /// write attempts, and at least one and at most that many otherwise.
    /// The frame is recorded in the send log exactly when a transport was
    /// attached, whether or not any attempt succeeded.
    pub fn send(&mut self, msg: Vec<u8>) -> (r: Result<(), BlynkError>)
        ensures
            final(self).msg_id == old(self).msg_id,
            old(self).transport is None ==> r == Err::<(), BlynkError>(BlynkError::StreamIsNone)
                && *final(self) == *old(self),
            old(self).transport is Some ==> final(self).sent@ == old(self).sent@.push(msg@)
                && final(self).transport is Some,
            r == Err::<(), BlynkError>(BlynkError::MessageSend) ==> final(self).attempts@ == old(self).attempts@ + RETRIES_TX_MAX_NUM,
            r is Ok ==> old(self).attempts@ + 1 <= final(self).attempts@ <= old(self).attempts@
                + RETRIES_TX_MAX_NUM,
            r is Ok || r == Err::<(), BlynkError>(BlynkError::StreamIsNone) || r == Err::<
                (),
                BlynkError,
            >(BlynkError::MessageSend),
            r == Err::<(), BlynkError>(BlynkError::StreamIsNone) <==> old(self).transport is None,
            final(self).transport is Some <==> old(self).transport is Some,
    {
        let mut t = match self.transport.take() {
            Some(t) => t,
            None => {
                return Err(BlynkError::StreamIsNone);
            },
        };
        self.sent = Ghost(self.sent@.push(msg@));
        let mut retries: u8 = RETRIES_TX_MAX_NUM;
        while retries > 0
            invariant
                old(self).transport is Some,
                retries <= RETRIES_TX_MAX_NUM,
                self.msg_id == old(self).msg_id,
                self.sent@ == old(self).sent@.push(msg@),
                self.attempts@ == old(self).attempts@ + RETRIES_TX_MAX_NUM - retries,
            decreases retries,
        {
            self.attempts = Ghost(self.attempts@ + 1);
            if !t.write_all(msg.as_slice()) {
                retries = retries - 1;
                t.retry_delay();
                continue ;
            }
            if !t.flush() {
                retries = retries - 1;
                t.retry_delay();
                continue ;
            }
            self.transport = Some(t);
            return Ok(());
        }
        self.transport = Some(t);
        Err(BlynkError::MessageSend)
    }

    /// Detaches and shuts down the transport, and resets the id counter,
    /// so the next session starts its ids from 1 again.
    pub fn disconnect(&mut self)
        ensures
            final(self).msg_id == 0,
            final(self).transport is None,
            final(self).sent == old(self).sent,
    {
        match self.transport.take() {
            Some(mut t) => {
                t.shutdown();
            },
            None => {},
        }
        self.msg_id = 0;
    }

    /// Reads and decodes exactly one frame from the front of the bytes the
    /// transport has available. Fails with `ReaderNotAvailable` exactly
    /// when no transport is attached, `Io` when the transport reports a
    /// hard failure, `EmptyBuffer` when nothing is pending (a recoverable
    /// poll miss), or the decode error of the malformed front. The ghost
    /// `peeked` log records the buffer the transport handed back, and the
    /// result is exactly what decoding its front gives; on success exactly
    /// the decoded frame's bytes (header plus body length) are marked
    /// consumed — recorded in the ghost `consumed` log — so any following
    /// bytes stay buffered.
    pub fn read(&mut self) -> (r: Result<Message, BlynkError>)
        ensures
            final(self).msg_id == old(self).msg_id,
            final(self).sent == old(self).sent,
            final(self).attempts == old(self).attempts,
            final(self).transport is Some <==> old(self).transport is Some,
            r == Err::<Message, BlynkError>(BlynkError::ReaderNotAvailable) <==> old(self).transport is None,
            old(self).transport is None ==> *final(self) == *old(self),
            r matches Err(e) ==> e == BlynkError::ReaderNotAvailable || e == BlynkError::Io || e
                == BlynkError::EmptyBuffer || spec_is_decode_error(e),
            r == Err::<Message, BlynkError>(BlynkError::Io) ==> final(self).peeked == old(self).peeked && final(self).consumed == old(self).consumed,
            final(self).peeked@.len() == old(self).peeked@.len() || final(self).peeked@.len()
                == old(self).peeked@.len() + 1,
            final(self).peeked@.take(old(self).peeked@.len() as int) == old(self).peeked@,
            r == Err::<Message, BlynkError>(BlynkError::EmptyBuffer) ==> final(self).peeked@
                == old(self).peeked@.push(Seq::<u8>::empty()) && final(self).consumed == old(self).consumed,
            r matches Err(e) ==> spec_is_decode_error(e) ==> final(self).peeked@.len() == old(self).peeked@.len() + 1 && spec_deserilize(final(self).peeked@.last()) == Err::<
                MessageModel,
                BlynkError,
            >(e) && final(self).consumed == old(self).consumed,
            r matches Ok(m) ==> {
                &&& final(self).peeked@.len() == old(self).peeked@.len() + 1
                &&& spec_deserilize(final(self).peeked@.last()) == Ok::<MessageModel, BlynkError>(
                    m@,
                )
                &&& final(self).consumed@ == old(self).consumed@.push(spec_frame_len(m@))
                &&& m@.id != 0
                &&& m@.mtype.spec_is_status() ==> m@.status is Some && m@.size is None
                    && m@.body.len() == 0
                &&& m@.mtype.spec_has_body() ==> m@.size is Some && m@.status is None
                    && m@.body.len() >= 1
                &&& m@.mtype.spec_is_status() || m@.mtype.spec_has_body()
            },
    {
        let mut t = match self.transport.take() {
            Some(t) => t,
            None => {
                proof {
                    assert(self.peeked@.take(self.peeked@.len() as int) =~= self.peeked@);
                }
                return Err(BlynkError::ReaderNotAvailable);
            },
        };
        let buf = match t.peek() {
            Some(b) => b,
            None => {
                proof {
                    assert(self.peeked@.take(self.peeked@.len() as int) =~= self.peeked@);
                }
                self.transport = Some(t);
                return Err(BlynkError::Io);
            },
        };
        self.peeked = Ghost(self.peeked@.push(buf@));
        proof {
            assert(self.peeked@.take(old(self).peeked@.len() as int) =~= old(self).peeked@);
        }
        if buf.len() == 0 {
            proof {
                assert(buf@ =~= Seq::<u8>::empty());
            }
            self.transport = Some(t);
            return Err(BlynkError::EmptyBuffer);
        }
        match Message::deserilize(buf.as_slice()) {
            Ok(msg) => {
                proof {
                    crate::message::lemma_deserilize_ok_shape(buf@);
                }
                let body_len: usize = match msg.size {
                    Some(s) => s as usize,
                    None => 0,
                };
                t.consume(HEADER_SIZE + body_len);
                self.consumed = Ghost(self.consumed@.push((HEADER_SIZE + body_len) as nat));
                self.transport = Some(t);
                Ok(msg)
            },
            Err(e) => {
                self.transport = Some(t);
                Err(e)
            },
        }
    }

    /// Sends a `Ping` frame under a freshly allocated id.
    pub fn ping(&mut self) -> (r: Result<(), BlynkError>)
        ensures
            final(self).msg_id == spec_next_id(old(self).msg_id),
            old(self).transport is None ==> r == Err::<(), BlynkError>(BlynkError::StreamIsNone)
                && final(self).sent == old(self).sent,
            old(self).transport is Some ==> final(self).sent@ == old(self).sent@.push(
                spec_serialize(
                    outbound_model(
                        MessageType::Ping,
                        spec_next_id(old(self).msg_id),
                        Seq::empty(),
                    ),
                ),
            ),
            r is Ok || r == Err::<(), BlynkError>(BlynkError::StreamIsNone) || r == Err::<
                (),
                BlynkError,
            >(BlynkError::MessageSend),
            r == Err::<(), BlynkError>(BlynkError::StreamIsNone) <==> old(self).transport is None,
            final(self).transport is Some <==> old(self).transport is Some,
    {
        let id = self.msg_id();
        let body: Vec<&str> = Vec::new();
        let msg = Message::new(MessageType::Ping, id, None, None, body);
        proof {
            assert(msg@.body =~= Seq::<Seq<char>>::empty());
        }
        let frame = msg.serialize();
        self.send(frame)
    }

    /// Sends a `Login` frame carrying the token, under a freshly allocated
    /// id.
    pub fn login(&mut self, token: &str) -> (r: Result<(), BlynkError>)
        requires
            encode_utf8(token@).len() <= 0xFFFF,
        ensures
            final(self).msg_id == spec_next_id(old(self).msg_id),
            old(self).transport is None ==> r == Err::<(), BlynkError>(BlynkError::StreamIsNone)
                && final(self).sent == old(self).sent,
            old(self).transport is Some ==> final(self).sent@ == old(self).sent@.push(
                spec_serialize(
                    outbound_model(
                        MessageType::Login,
                        spec_next_id(old(self).msg_id),
                        seq![token@],
                    ),
                ),
            ),
            r is Ok || r == Err::<(), BlynkError>(BlynkError::StreamIsNone) || r == Err::<
                (),
                BlynkError,
            >(BlynkError::MessageSend),
            r == Err::<(), BlynkError>(BlynkError::StreamIsNone) <==> old(self).transport is None,
            final(self).transport is Some <==> old(self).transport is Some,
    {
        let id = self.msg_id();
        let mut body: Vec<&str> = Vec::new();
        body.push(token);
        let msg = Message::new(MessageType::Login, id, None, None, body);
        proof {
            assert(msg@.body =~= seq![token@]);
        }
        let frame = msg.serialize();
        self.send(frame)
    }

    /// Sends the heartbeat-configuration `Internal` frame, advertising the
    /// client version, the inbound buffer size, the heartbeat period in
    /// seconds and the platform tag, under a freshly allocated id.
    pub fn heartbeat(&mut self, heartbeat_secs: u64, rcv_buffer: u16) -> (r: Result<
        (),
        BlynkError,
    >)
        ensures
            final(self).msg_id == spec_next_id(old(self).msg_id),
            old(self).transport is None ==> r == Err::<(), BlynkError>(BlynkError::StreamIsNone)
                && final(self).sent == old(self).sent,
            old(self).transport is Some ==> final(self).sent@ == old(self).sent@.push(
                spec_serialize(
                    outbound_model(
                        MessageType::Internal,
                        spec_next_id(old(self).msg_id),
                        seq![
                            "ver"@,
                            "0.1.0"@,
                            "buff-in"@,
                            spec_dec(rcv_buffer as nat),
                            "h-beat"@,
                            spec_dec(heartbeat_secs as nat),
                            "dev"@,
                            "rust"@,
                        ],
                    ),
                ),
            ),
            r is Ok || r == Err::<(), BlynkError>(BlynkError::StreamIsNone) || r == Err::<
                (),
                BlynkError,
            >(BlynkError::MessageSend),
            r == Err::<(), BlynkError>(BlynkError::StreamIsNone) <==> old(self).transport is None,
            final(self).transport is Some <==> old(self).transport is Some,
    {
        let id = self.msg_id();
        let ver = client_version();
        let rcv_s = u64_to_string(rcv_buffer as u64);
        let secs_s = u64_to_string(heartbeat_secs);
        let mut body: Vec<&str> = Vec::new();
        body.push("ver");
        body.push(ver);
        body.push("buff-in");
        body.push(rcv_s.as_str());
        body.push("h-beat");
        body.push(secs_s.as_str());
        body.push("dev");
        body.push("rust");
        let msg = Message::new(MessageType::Internal, id, None, None, body);
        let ghost fields = seq![
            "ver"@,
            "0.1.0"@,
            "buff-in"@,
            spec_dec(rcv_buffer as nat),
            "h-beat"@,
            spec_dec(heartbeat_secs as nat),
            "dev"@,
            "rust"@,
        ];
        proof {
            assert(msg@.body =~= fields);
            reveal_strlit("ver");
            reveal_strlit("0.1.0");
            reveal_strlit("buff-in");
            reveal_strlit("h-beat");
            reveal_strlit("dev");
            reveal_strlit("rust");
            crate::text::lemma_dec_len_u64(rcv_buffer as u64);
            crate::text::lemma_dec_len_u64(heartbeat_secs);
            assert(fields[0].len() <= 20 && fields[1].len() <= 20 && fields[2].len() <= 20
                && fields[3].len() <= 20 && fields[4].len() <= 20 && fields[5].len() <= 20
                && fields[6].len() <= 20 && fields[7].len() <= 20);
            assert forall|i: int| 0 <= i < fields.len() implies (#[trigger] fields[i]).len()
                <= 20 by {
                if i == 0 {
                } else if i == 1 {
                } else if i == 2 {
                } else if i == 3 {
                } else if i == 4 {
                } else if i == 5 {
                } else if i == 6 {
                } else {
                    assert(i == 7);
                }
            }
            lemma_joined_bytes_len_bound(fields, 20);
        }
        let frame = msg.serialize();
        self.send(frame)
    }

    /// Sends a `Rsp` frame: five header bytes carrying the given status
    /// code in the `value` field and no body, reusing the given message id
    /// (so a reply is correlated to the frame it answers); the id counter
    /// is not touched.
    pub fn response(&mut self, status: u16, msg_id: u16) -> (r: Result<(), BlynkError>)
        ensures
            final(self).msg_id == old(self).msg_id,
            old(self).transport is None ==> r == Err::<(), BlynkError>(BlynkError::StreamIsNone)
                && final(self).sent == old(self).sent,
            old(self).transport is Some ==> final(self).sent@ == old(self).sent@.push(
                spec_header(MessageType::Rsp.spec_code(), msg_id, status),
            ),
            r is Ok || r == Err::<(), BlynkError>(BlynkError::StreamIsNone) || r == Err::<
                (),
                BlynkError,
            >(BlynkError::MessageSend),
            r == Err::<(), BlynkError>(BlynkError::StreamIsNone) <==> old(self).transport is None,
            final(self).transport is Some <==> old(self).transport is Some,
    {
        let frame = ProtocolHeader::encode(MessageType::Rsp.code(), msg_id, status);
        self.send(frame)
    }

    /// Sends a `Hw` frame `["vw", pin, value]` writing a virtual pin,
    /// under a freshly allocated id.
    pub fn virtual_write(&mut self, v_pin: u8, val: &str) -> (r: Result<(), BlynkError>)
        requires
            spec_joined_bytes(seq!["vw"@, spec_dec(v_pin as nat), val@]).len() <= 0xFFFF,
        ensures
            final(self).msg_id == spec_next_id(old(self).msg_id),
            old(self).transport is None ==> r == Err::<(), BlynkError>(BlynkError::StreamIsNone)
                && final(self).sent == old(self).sent,
            old(self).transport is Some ==> final(self).sent@ == old(self).sent@.push(
                spec_serialize(
                    outbound_model(
                        MessageType::Hw,
                        spec_next_id(old(self).msg_id),
                        seq!["vw"@, spec_dec(v_pin as nat), val@],
                    ),
                ),
            ),
            r is Ok || r == Err::<(), BlynkError>(BlynkError::StreamIsNone) || r == Err::<
                (),
                BlynkError,
            >(BlynkError::MessageSend),
            r == Err::<(), BlynkError>(BlynkError::StreamIsNone) <==> old(self).transport is None,
            final(self).transport is Some <==> old(self).transport is Some,
    {
        let id = self.msg_id();
        let pin_s = u64_to_string(v_pin as u64);
        let mut body: Vec<&str> = Vec::new();
        body.push("vw");
        body.push(pin_s.as_str());
        body.push(val);
        let msg = Message::new(MessageType::Hw, id, None, None, body);
        proof {
            assert(msg@.body =~= seq!["vw"@, spec_dec(v_pin as nat), val@]);
        }
        let frame = msg.serialize();
        self.send(frame)
    }

    /// Sends a `HwSync` frame `["vr", pins]` requesting the state of the
    /// given single-digit virtual pins, under a freshly allocated id.
    pub fn virtual_sync(&mut self, pins: Vec<u32>) -> (r: Result<(), BlynkError>)
        requires
            forall|i: int| 0 <= i < pins@.len() ==> pins@[i] < 10,
            spec_joined_bytes(
                seq![
                    "vr"@,
                    pins@.map_values(|x: u32| crate::text::dec_digit_char(x as int)),
                ],
            ).len() <= 0xFFFF,
        ensures
            final(self).msg_id == spec_next_id(old(self).msg_id),
            old(self).transport is None ==> r == Err::<(), BlynkError>(BlynkError::StreamIsNone)
                && final(self).sent == old(self).sent,
            old(self).transport is Some ==> final(self).sent@ == old(self).sent@.push(
                spec_serialize(
                    outbound_model(
                        MessageType::HwSync,
                        spec_next_id(old(self).msg_id),
                        seq![
                            "vr"@,
                            pins@.map_values(|x: u32| crate::text::dec_digit_char(x as int)),
                        ],
                    ),
                ),
            ),
            r is Ok || r == Err::<(), BlynkError>(BlynkError::StreamIsNone) || r == Err::<
                (),
                BlynkError,
            >(BlynkError::MessageSend),
            r == Err::<(), BlynkError>(BlynkError::StreamIsNone) <==> old(self).transport is None,
            final(self).transport is Some <==> old(self).transport is Some,
    {
        let id = self.msg_id();
        let ghost digit_seq = pins@.map_values(|x: u32| crate::text::dec_digit_char(x as int));
        let mut pin_str = String::new();
        let mut i: usize = 0;
        while i < pins.len()
            invariant
                0 <= i <= pins@.len(),
                forall|j: int| 0 <= j < pins@.len() ==> pins@[j] < 10,
                digit_seq == pins@.map_values(|x: u32| crate::text::dec_digit_char(x as int)),
                pin_str@ =~= digit_seq.take(i as int),
            decreases pins@.len() - i,
        {
            crate::text::push_digit(&mut pin_str, pins[i] as u64);
            proof {
                assert(pin_str@ =~= digit_seq.take(i + 1 as int));
            }
            i += 1;
        }
        proof {
            assert(digit_seq.take(pins@.len() as int) =~= digit_seq);
        }
        let mut body: Vec<&str> = Vec::new();
        body.push("vr");
        body.push(pin_str.as_str());
        let msg = Message::new(MessageType::HwSync, id, None, None, body);
        proof {
            assert(msg@.body =~= seq!["vr"@, digit_seq]);
        }
        let frame = msg.serialize();
        self.send(frame)
    }

    /// Sends an `Email` frame `[to, subject, body]`, under a freshly
    /// allocated id.
    pub fn email(&mut self, to: &str, subject: &str, body: &str) -> (r: Result<(), BlynkError>)
        requires
            spec_joined_bytes(seq![to@, subject@, body@]).len() <= 0xFFFF,
        ensures
            final(self).msg_id == spec_next_id(old(self).msg_id),
            old(self).transport is None ==> r == Err::<(), BlynkError>(BlynkError::StreamIsNone)
                && final(self).sent == old(self).sent,
            old(self).transport is Some ==> final(self).sent@ == old(self).sent@.push(
                spec_serialize(
                    outbound_model(
                        MessageType::Email,
                        spec_next_id(old(self).msg_id),
                        seq![to@, subject@, body@],
                    ),
                ),
            ),
            r is Ok || r == Err::<(), BlynkError>(BlynkError::StreamIsNone) || r == Err::<
                (),
                BlynkError,
            >(BlynkError::MessageSend),
            r == Err::<(), BlynkError>(BlynkError::StreamIsNone) <==> old(self).transport is None,
            final(self).transport is Some <==> old(self).transport is Some,
    {
        let id = self.msg_id();
        let mut fields: Vec<&str> = Vec::new();
        fields.push(to);
        fields.push(subject);
        fields.push(body);
        let msg = Message::new(MessageType::Email, id, None, None, fields);
        proof {
            assert(msg@.body =~= seq![to@, subject@, body@]);
        }
        let frame = msg.serialize();
        self.send(frame)
    }

    /// Sends a `Tweet` frame with one text field, under a freshly
    /// allocated id.
    pub fn tweet(&mut self, text: &str) -> (r: Result<(), BlynkError>)
        requires
            encode_utf8(text@).len() <= 0xFFFF,
        ensures
            final(self).msg_id == spec_next_id(old(self).msg_id),
            old(self).transport is None ==> r == Err::<(), BlynkError>(BlynkError::StreamIsNone)
                && final(self).sent == old(self).sent,
            old(self).transport is Some ==> final(self).sent@ == old(self).sent@.push(
                spec_serialize(
                    outbound_model(
                        MessageType::Tweet,
                        spec_next_id(old(self).msg_id),
                        seq![text@],
                    ),
                ),
            ),
            r is Ok || r == Err::<(), BlynkError>(BlynkError::StreamIsNone) || r == Err::<
                (),
                BlynkError,
            >(BlynkError::MessageSend),
            r == Err::<(), BlynkError>(BlynkError::StreamIsNone) <==> old(self).transport is None,
            final(self).transport is Some <==> old(self).transport is Some,
    {
        let id = self.msg_id();
        let mut body: Vec<&str> = Vec::new();
        body.push(text);
        let msg = Message::new(MessageType::Tweet, id, None, None, body);
        proof {
            assert(msg@.body =~= seq![text@]);
        }
        let frame = msg.serialize();
        self.send(frame)
    }

    /// Sends a `Notify` frame with one text field, under a freshly
    /// allocated id.
    pub fn notify(&mut self, text: &str) -> (r: Result<(), BlynkError>)
        requires
            encode_utf8(text@).len() <= 0xFFFF,
        ensures
            final(self).msg_id == spec_next_id(old(self).msg_id),
            old(self).transport is None ==> r == Err::<(), BlynkError>(BlynkError::StreamIsNone)
                && final(self).sent == old(self).sent,
            old(self).transport is Some ==> final(self).sent@ == old(self).sent@.push(
                spec_serialize(
                    outbound_model(
                        MessageType::Notify,
                        spec_next_id(old(self).msg_id),
                        seq![text@],
                    ),
                ),
            ),
            r is Ok || r == Err::<(), BlynkError>(BlynkError::StreamIsNone) || r == Err::<
                (),
                BlynkError,
            >(BlynkError::MessageSend),
            r == Err::<(), BlynkError>(BlynkError::StreamIsNone) <==> old(self).transport is None,
            final(self).transport is Some <==> old(self).transport is Some,
    {
        let id = self.msg_id();
        let mut body: Vec<&str> = Vec::new();
        body.push(text);
        let msg = Message::new(MessageType::Notify, id, None, None, body);
        proof {
            assert(msg@.body =~= seq![text@]);
        }
        let frame = msg.serialize();
        self.send(frame)
    }

    /// Sends a `Property` frame `[pin, property, value]`, under a freshly
    /// allocated id.
    pub fn set_property(&mut self, pin: u8, prop: &str, val: &str) -> (r: Result<(), BlynkError>)
        requires
            spec_joined_bytes(seq![spec_dec(pin as nat), prop@, val@]).len() <= 0xFFFF,
        ensures
            final(self).msg_id == spec_next_id(old(self).msg_id),
            old(self).transport is None ==> r == Err::<(), BlynkError>(BlynkError::StreamIsNone)
                && final(self).sent == old(self).sent,
            old(self).transport is Some ==> final(self).sent@ == old(self).sent@.push(
                spec_serialize(
                    outbound_model(
                        MessageType::Property,
                        spec_next_id(old(self).msg_id),
                        seq![spec_dec(pin as nat), prop@, val@],
                    ),
                ),
            ),
            r is Ok || r == Err::<(), BlynkError>(BlynkError::StreamIsNone) || r == Err::<
                (),
                BlynkError,
            >(BlynkError::MessageSend),
            r == Err::<(), BlynkError>(BlynkError::StreamIsNone) <==> old(self).transport is None,
            final(self).transport is Some <==> old(self).transport is Some,
    {
        let id = self.msg_id();
        let pin_s = u64_to_string(pin as u64);
        let mut body: Vec<&str> = Vec::new();
        body.push(pin_s.as_str());
        body.push(prop);
        body.push(val);
        let msg = Message::new(MessageType::Property, id, None, None, body);
        proof {
            assert(msg@.body =~= seq![spec_dec(pin as nat), prop@, val@]);
        }
        let frame = msg.serialize();
        self.send(frame)
    }

    /// Sends an `Internal` frame with the given fields, under a freshly
    /// allocated id.
    pub fn internal(&mut self, data: Vec<&str>) -> (r: Result<(), BlynkError>)
        requires
            spec_joined_bytes(data.deep_view()).len() <= 0xFFFF,
        ensures
            final(self).msg_id == spec_next_id(old(self).msg_id),
            old(self).transport is None ==> r == Err::<(), BlynkError>(BlynkError::StreamIsNone)
                && final(self).sent == old(self).sent,
            old(self).transport is Some ==> final(self).sent@ == old(self).sent@.push(
                spec_serialize(
                    outbound_model(
                        MessageType::Internal,
                        spec_next_id(old(self).msg_id),
                        data.deep_view(),
                    ),
                ),
            ),
            r is Ok || r == Err::<(), BlynkError>(BlynkError::StreamIsNone) || r == Err::<
                (),
                BlynkError,
            >(BlynkError::MessageSend),
            r == Err::<(), BlynkError>(BlynkError::StreamIsNone) <==> old(self).transport is None,
            final(self).transport is Some <==> old(self).transport is Some,
    {
        let id = self.msg_id();
        let msg = Message::new(MessageType::Internal, id, None, None, data);
        let frame = msg.serialize();
        self.send(frame)
    }
}

} // verus!
