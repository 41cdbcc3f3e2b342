//! Typed protocol messages and their wire form.
//!
//! A frame is a five-byte header followed, for the body-bearing types, by a
//! UTF-8 body whose fields are separated by single NUL bytes. The header's
//! `value` field is polymorphic: for `Rsp` and `Ping` it carries a
//! [`ProtocolStatus`] code, for the body-bearing types it carries the byte
//! length of the body.

use vstd::prelude::*;
use vstd::utf8::*;

use crate::codec::{spec_header, ProtocolHeader};
use crate::BlynkError;

verus! {

/// Closed enumeration of protocol verbs. Each has a fixed numeric wire code,
/// given by [`MessageType::code`].
#[derive(Clone, Copy, Debug, PartialEq, Eq, Structural)]
pub enum MessageType {
    Rsp,
    Login,
    Ping,
    Tweet,
    Email,
    Notify,
    Bridge,
    HwSync,
    Internal,
    Property,
    Hw,
    Redirect,
}

impl MessageType {
    /// The numeric wire code of this verb.
    pub open spec fn spec_code(self) -> u8 {
        match self {
            MessageType::Rsp => 0,
            MessageType::Login => 2,
            MessageType::Ping => 6,
            MessageType::Tweet => 12,
            MessageType::Email => 13,
            MessageType::Notify => 14,
            MessageType::Bridge => 15,
            MessageType::HwSync => 16,
            MessageType::Internal => 17,
            MessageType::Property => 19,
            MessageType::Hw => 20,
            MessageType::Redirect => 41,
        }
    }

    /// The verb with the given wire code, if any.
    pub open spec fn spec_from_code(code: u8) -> Option<MessageType> {
        if code == 0 {
            Some(MessageType::Rsp)
        } else if code == 2 {
            Some(MessageType::Login)
        } else if code == 6 {
            Some(MessageType::Ping)
        } else if code == 12 {
            Some(MessageType::Tweet)
        } else if code == 13 {
            Some(MessageType::Email)
        } else if code == 14 {
            Some(MessageType::Notify)
        } else if code == 15 {
            Some(MessageType::Bridge)
        } else if code == 16 {
            Some(MessageType::HwSync)
        } else if code == 17 {
            Some(MessageType::Internal)
        } else if code == 19 {
            Some(MessageType::Property)
        } else if code == 20 {
            Some(MessageType::Hw)
        } else if code == 41 {
            Some(MessageType::Redirect)
        } else {
            None
        }
    }

    /// True for the types whose header `value` is a body byte-length and
    /// which carry a NUL-separated body.
    pub open spec fn spec_has_body(self) -> bool {
        self == MessageType::Hw || self == MessageType::Bridge || self == MessageType::Internal
            || self == MessageType::Redirect
    }

    /// True for the response-shaped types whose header `value` is a
    /// [`ProtocolStatus`] code.
    pub open spec fn spec_is_status(self) -> bool {
        self == MessageType::Rsp || self == MessageType::Ping
    }

    /// The numeric wire code of this verb.
    #[verifier::when_used_as_spec(spec_code)]
    pub fn code(self) -> (r: u8)
        ensures
            r == self.spec_code(),
    {
        match self {
            MessageType::Rsp => 0,
            MessageType::Login => 2,
            MessageType::Ping => 6,
            MessageType::Tweet => 12,
            MessageType::Email => 13,
            MessageType::Notify => 14,
            MessageType::Bridge => 15,
            MessageType::HwSync => 16,
            MessageType::Internal => 17,
            MessageType::Property => 19,
            MessageType::Hw => 20,
            MessageType::Redirect => 41,
        }
    }

    /// The verb with the given wire code, if any.
    pub fn from_code(code: u8) -> (r: Option<MessageType>)
        ensures
            r == Self::spec_from_code(code),
    {
        if code == 0 {
            Some(MessageType::Rsp)
        } else if code == 2 {
            Some(MessageType::Login)
        } else if code == 6 {
            Some(MessageType::Ping)
        } else if code == 12 {
            Some(MessageType::Tweet)
        } else if code == 13 {
            Some(MessageType::Email)
        } else if code == 14 {
            Some(MessageType::Notify)
        } else if code == 15 {
            Some(MessageType::Bridge)
        } else if code == 16 {
            Some(MessageType::HwSync)
        } else if code == 17 {
            Some(MessageType::Internal)
        } else if code == 19 {
            Some(MessageType::Property)
        } else if code == 20 {
            Some(MessageType::Hw)
        } else if code == 41 {
            Some(MessageType::Redirect)
        } else {
            None
        }
    }

    /// True for the types whose header `value` is a body byte-length.
    #[verifier::when_used_as_spec(spec_has_body)]
    pub fn has_body(self) -> (r: bool)
        ensures
            r == self.spec_has_body(),
    {
        matches!(
            self,
            MessageType::Hw | MessageType::Bridge | MessageType::Internal | MessageType::Redirect
        )
    }

    /// True for the response-shaped types.
    #[verifier::when_used_as_spec(spec_is_status)]
    pub fn is_status(self) -> (r: bool)
        ensures
            r == self.spec_is_status(),
    {
        matches!(self, MessageType::Rsp | MessageType::Ping)
    }
}

/// Round trip between a verb and its wire code.
pub proof fn lemma_type_code_round_trip(t: MessageType)
    ensures
        MessageType::spec_from_code(t.spec_code()) == Some(t),
{
}

/// Closed enumeration of response status codes, carried in the header
/// `value` field of `Rsp` and `Ping` frames.
#[derive(Clone, Copy, Debug, PartialEq, Eq, Structural)]
pub enum ProtocolStatus {
    StatusInvalidToken,
    StatusNoData,
    StatusOk,
    VpinMaxNum,
}

impl ProtocolStatus {
    /// The numeric wire code of this status.
    pub open spec fn spec_code(self) -> u16 {
        match self {
            ProtocolStatus::StatusInvalidToken => 9,
            ProtocolStatus::StatusNoData => 17,
            ProtocolStatus::StatusOk => 200,
            ProtocolStatus::VpinMaxNum => 32,
        }
    }

    /// The status with the given wire code, if any.
    pub open spec fn spec_from_code(code: u16) -> Option<ProtocolStatus> {
        if code == 9 {
            Some(ProtocolStatus::StatusInvalidToken)
        } else if code == 17 {
            Some(ProtocolStatus::StatusNoData)
        } else if code == 200 {
            Some(ProtocolStatus::StatusOk)
        } else if code == 32 {
            Some(ProtocolStatus::VpinMaxNum)
        } else {
            None
        }
    }

    /// The numeric wire code of this status.
    #[verifier::when_used_as_spec(spec_code)]
    pub fn code(self) -> (r: u16)
        ensures
            r == self.spec_code(),
    {
        match self {
            ProtocolStatus::StatusInvalidToken => 9,
            ProtocolStatus::StatusNoData => 17,
            ProtocolStatus::StatusOk => 200,
            ProtocolStatus::VpinMaxNum => 32,
        }
    }

    /// The status with the given wire code, if any.
    pub fn from_code(code: u16) -> (r: Option<ProtocolStatus>)
        ensures
            r == Self::spec_from_code(code),
    {
        if code == 9 {
            Some(ProtocolStatus::StatusInvalidToken)
        } else if code == 17 {
            Some(ProtocolStatus::StatusNoData)
        } else if code == 200 {
            Some(ProtocolStatus::StatusOk)
        } else if code == 32 {
            Some(ProtocolStatus::VpinMaxNum)
        } else {
            None
        }
    }
}

/// Mathematical model of a [`Message`]: the same fields with the body as a
/// sequence of character sequences.
pub ghost struct MessageModel {
    pub mtype: MessageType,
    pub id: u16,
    pub size: Option<u16>,
    pub status: Option<ProtocolStatus>,
    pub body: Seq<Seq<char>>,
}

/// One logical unit of protocol exchange: header fields plus an ordered body
/// of UTF-8 fields. Immutable once constructed.
#[derive(Debug)]
pub struct Message {
    pub mtype: MessageType,
    pub id: u16,
    pub size: Option<u16>,
    pub status: Option<ProtocolStatus>,
    pub body: Vec<String>,
}

impl View for Message {
    type V = MessageModel;

    open spec fn view(&self) -> MessageModel {
        MessageModel {
            mtype: self.mtype,
            id: self.id,
            size: self.size,
            status: self.status,
            body: self.body.deep_view(),
        }
    }
}

/// The wire bytes of a body: the fields' UTF-8 encodings joined with a
/// single NUL byte between adjacent fields (empty when there are no fields,
/// with no separator after the last field).
pub open spec fn spec_joined_bytes(fields: Seq<Seq<char>>) -> Seq<u8>
    decreases fields.len(),
{
    if fields.len() == 0 {
        Seq::empty()
    } else if fields.len() == 1 {
        encode_utf8(fields[0])
    } else {
        encode_utf8(fields[0]) + seq![0u8] + spec_joined_bytes(fields.drop_first())
    }
}

/// The full wire form of a message: header with the body byte-length in the
/// `value` field, then the joined body bytes. Meaningful when the joined
/// body is at most 0xFFFF bytes long.
pub open spec fn spec_serialize(m: MessageModel) -> Seq<u8> {
    spec_header(
        m.mtype.spec_code(),
        m.id,
        spec_joined_bytes(m.body).len() as u16,
    ) + spec_joined_bytes(m.body)
}

/// Appending one more field extends the joined bytes by a separator (when
/// fields precede it) and the field's encoding.
pub proof fn lemma_joined_bytes_push(fields: Seq<Seq<char>>, f: Seq<char>)
    ensures
        fields.len() == 0 ==> spec_joined_bytes(fields.push(f)) == encode_utf8(f),
        fields.len() > 0 ==> spec_joined_bytes(fields.push(f)) == spec_joined_bytes(fields)
            + seq![0u8] + encode_utf8(f),
    decreases fields.len(),
{
    if fields.len() == 0 {
        assert(fields.push(f).len() == 1);
        assert(fields.push(f)[0] == f);
    } else if fields.len() == 1 {
        let two = fields.push(f);
        assert(two[0] == fields[0]);
        assert(two.drop_first() =~= seq![f]);
        assert(spec_joined_bytes(seq![f]) == encode_utf8(f));
    } else {
        let pushed = fields.push(f);
        assert(pushed[0] == fields[0]);
        assert(pushed.drop_first() =~= fields.drop_first().push(f));
        lemma_joined_bytes_push(fields.drop_first(), f);
    }
}

impl Message {
    /// Builds a message from its parts, copying each body field.
    pub fn new(
        mtype: MessageType,
        id: u16,
        size: Option<u16>,
        status: Option<ProtocolStatus>,
        body: Vec<&str>,
    ) -> (m: Message)
        ensures
            m@.mtype == mtype,
            m@.id == id,
            m@.size == size,
            m@.status == status,
            m@.body == body.deep_view(),
    {
        let mut owned: Vec<String> = Vec::new();
        let mut i: usize = 0;
        while i < body.len()
            invariant
                0 <= i <= body.len(),
                owned@.len() == i,
                forall|j: int| 0 <= j < i ==> #[trigger] owned@[j]@ == body@[j]@,
            decreases body.len() - i,
        {
            owned.push(body[i].to_owned());
            i += 1;
        }
        proof {
            assert forall|j: int| 0 <= j < body@.len() implies owned.deep_view()[j]
                == body.deep_view()[j] by {
                assert(owned@[j]@ == body@[j]@);
            }
            assert(owned.deep_view() =~= body.deep_view());
        }
        Message { mtype, id, size, status, body: owned }
    }

    /// Serialises the message: body fields joined with single NUL
    /// separators, preceded by the five-byte header whose `value` field is
    /// the body byte length.
    pub fn serialize(&self) -> (r: Vec<u8>)
        requires
            spec_joined_bytes(self@.body).len() <= 0xFFFF,
        ensures
            r@ == spec_serialize(self@),
    {
        let mut data: Vec<u8> = Vec::new();
        let mut i: usize = 0;
        while i < self.body.len()
            invariant
                0 <= i <= self.body.len(),
                data@ =~= spec_joined_bytes(self@.body.take(i as int)),
                spec_joined_bytes(self@.body).len() <= 0xFFFF,
                self@.body == self.body.deep_view(),
            decreases self.body.len() - i,
        {
            if i > 0 {
                data.push(0u8);
            }
            let mut field_bytes = self.body[i].as_str().as_bytes_vec();
            proof {
                assert(self.body@[i as int]@ == self@.body[i as int]);
            }
            data.append(&mut field_bytes);
            proof {
                let taken = self@.body.take(i as int);
                lemma_joined_bytes_push(taken, self@.body[i as int]);
                assert(taken.push(self@.body[i as int]) =~= self@.body.take(i + 1 as int));
            }
            i += 1;
        }
        proof {
            assert(self@.body.take(self.body.len() as int) =~= self@.body);
        }
        let len16: u16 = data.len() as u16;
        let mut buf = ProtocolHeader::encode(self.mtype.code(), self.id, len16);
        buf.append(&mut data);
        buf
    }
}

/// Chunks of a byte sequence split on NUL bytes. There is always at least
/// one chunk; an empty input yields one empty chunk, mirroring how an empty
/// body decodes to a single empty field.
pub open spec fn spec_split_zero(b: Seq<u8>) -> Seq<Seq<u8>>
    decreases b.len(),
{
    if b.len() == 0 {
        seq![Seq::<u8>::empty()]
    } else if b[0] == 0 {
        seq![Seq::<u8>::empty()] + spec_split_zero(b.drop_first())
    } else {
        let rest = spec_split_zero(b.drop_first());
        seq![seq![b[0]] + rest[0]] + rest.drop_first()
    }
}

/// Splitting always yields at least one chunk.
pub proof fn lemma_split_zero_len(b: Seq<u8>)
    ensures
        spec_split_zero(b).len() >= 1,
    decreases b.len(),
{
    if b.len() == 0 {
    } else {
        lemma_split_zero_len(b.drop_first());
    }
}

/// True when every NUL-separated chunk of the body is valid UTF-8.
pub open spec fn spec_body_valid(body: Seq<u8>) -> bool {
    forall|i: int|
        0 <= i < spec_split_zero(body).len() ==> valid_utf8(#[trigger] spec_split_zero(body)[i])
}

/// The decoded body fields: each NUL-separated chunk decoded from UTF-8.
pub open spec fn spec_body_fields(body: Seq<u8>) -> Seq<Seq<char>> {
    spec_split_zero(body).map_values(|chunk: Seq<u8>| decode_utf8(chunk))
}

/// The result of decoding one frame from the front of `data`: exactly the
/// header checks (at least five bytes, nonzero id, known type code), then by
/// type either a status interpretation of `value` or a body of `value`
/// bytes split on NUL into UTF-8 fields.
pub open spec fn spec_deserilize(data: Seq<u8>) -> Result<MessageModel, BlynkError> {
    if data.len() < 5 {
        Err(BlynkError::InvalidMessageHeader)
    } else {
        let id = (data[1] as int * 256 + data[2] as int) as u16;
        let value = (data[3] as int * 256 + data[4] as int) as u16;
        if id == 0 {
            Err(BlynkError::InvalidMessageId)
        } else {
            match MessageType::spec_from_code(data[0]) {
                Option::None => Err(BlynkError::UnknownMessageType),
                Option::Some(mt) => if mt.spec_is_status() {
                    match ProtocolStatus::spec_from_code(value) {
                        Option::None => Err(BlynkError::InvalidStatus),
                        Option::Some(st) => Ok(
                            MessageModel {
                                mtype: mt,
                                id,
                                size: None,
                                status: Some(st),
                                body: Seq::empty(),
                            },
                        ),
                    }
                } else if mt.spec_has_body() {
                    if data.len() < 5 + value {
                        Err(BlynkError::InvalidMessageBody)
                    } else {
                        let bb = data.subrange(5, 5 + value as int);
                        if spec_body_valid(bb) {
                            Ok(
                                MessageModel {
                                    mtype: mt,
                                    id,
                                    size: Some(value),
                                    status: None,
                                    body: spec_body_fields(bb),
                                },
                            )
                        } else {
                            Err(BlynkError::InvalidMessageBody)
                        }
                    }
                } else {
                    Err(BlynkError::UnsupportedInboundType)
                },
            }
        }
    }
}

/// True when no byte of `b` is NUL.
pub open spec fn zero_free(b: Seq<u8>) -> bool {
    forall|k: int| 0 <= k < b.len() ==> b[k] != 0
}

/// The UTF-8 encoding of a nonzero scalar contains no NUL byte.
proof fn lemma_encode_scalar_zero_free(c: u32)
    requires
        is_scalar(c),
        c != 0,
    ensures
        zero_free(encode_scalar(c)),
{
    assert(forall|y: u8| (0x80u8 | y) != 0) by (bit_vector);
    assert(forall|y: u8| (0xC0u8 | y) != 0) by (bit_vector);
    assert(forall|y: u8| (0xE0u8 | y) != 0) by (bit_vector);
    assert(forall|y: u8| (0xF0u8 | y) != 0) by (bit_vector);
    assert(forall|v: u32| v <= 0x7F ==> ((v & 0x7F) as u8) as u32 == v) by (bit_vector);
    if has_width_1_encoding(c) {
        assert(encode_scalar(c)[0] == leading_byte_width_1(c));
        assert((leading_byte_width_1(c)) as u32 == c);
    }
}

/// The UTF-8 encoding of a NUL-free character sequence contains no NUL
/// byte.
pub proof fn lemma_encode_utf8_zero_free(f: Seq<char>)
    requires
        !f.contains('\0'),
    ensures
        zero_free(encode_utf8(f)),
    decreases f.len(),
{
    if f.len() == 0 {
    } else {
        char_is_scalar(f[0]);
        if f[0] as u32 == 0 {
            char_u32_cast(f[0], 0u32);
            char_u32_cast('\0', 0u32);
            assert(f.contains('\0')) by {
                assert(f[0] == '\0');
            }
        }
        lemma_encode_scalar_zero_free(f[0] as u32);
        assert(!f.drop_first().contains('\0')) by {
            if f.drop_first().contains('\0') {
                let i = choose|i: int| 0 <= i < f.drop_first().len() && f.drop_first()[i] == '\0';
                assert(f[i + 1] == '\0');
                assert(f.contains('\0'));
            }
        }
        lemma_encode_utf8_zero_free(f.drop_first());
        assert forall|k: int| 0 <= k < encode_utf8(f).len() implies encode_utf8(f)[k] != 0 by {
            let head = encode_scalar(f[0] as u32);
            let tail = encode_utf8(f.drop_first());
            if k < head.len() {
                assert(encode_utf8(f)[k] == head[k]);
            } else {
                assert(encode_utf8(f)[k] == tail[k - head.len()]);
            }
        }
    }
}

/// A NUL-free byte sequence splits into exactly one chunk: itself.
proof fn lemma_split_zero_free(b: Seq<u8>)
    requires
        zero_free(b),
    ensures
        spec_split_zero(b) == seq![b],
    decreases b.len(),
{
    if b.len() == 0 {
        assert(spec_split_zero(b) =~~= seq![b]);
    } else {
        assert(zero_free(b.drop_first()));
        lemma_split_zero_free(b.drop_first());
        assert(seq![b[0]] + b.drop_first() =~= b);
        assert(spec_split_zero(b) =~~= seq![b]);
    }
}

/// Splitting a sequence `x + NUL + y` with NUL-free `x` peels off `x` as
/// the first chunk.
proof fn lemma_split_sep(x: Seq<u8>, y: Seq<u8>)
    requires
        zero_free(x),
    ensures
        spec_split_zero(x + seq![0u8] + y) == seq![x] + spec_split_zero(y),
    decreases x.len(),
{
    let b = x + seq![0u8] + y;
    if x.len() == 0 {
        assert(b[0] == 0);
        assert(b.drop_first() =~= y);
        assert(spec_split_zero(b) == seq![Seq::<u8>::empty()] + spec_split_zero(y));
        assert(seq![Seq::<u8>::empty()] + spec_split_zero(y) =~~= seq![x] + spec_split_zero(y));
    } else {
        assert(b[0] == x[0]);
        assert(b[0] != 0);
        assert(zero_free(x.drop_first()));
        lemma_split_sep(x.drop_first(), y);
        assert(b.drop_first() =~= x.drop_first() + seq![0u8] + y);
        let rest = spec_split_zero(b.drop_first());
        assert(rest == seq![x.drop_first()] + spec_split_zero(y));
        lemma_split_zero_len(y);
        assert(rest[0] == x.drop_first());
        assert(seq![b[0]] + rest[0] =~= x);
        assert(rest.drop_first() =~= spec_split_zero(y));
        assert(spec_split_zero(b) =~~= seq![x] + spec_split_zero(y));
    }
}

/// Splitting the joined body bytes of NUL-free fields recovers exactly the
/// fields' UTF-8 encodings.
pub proof fn lemma_split_joined(fields: Seq<Seq<char>>)
    requires
        fields.len() >= 1,
        forall|i: int| 0 <= i < fields.len() ==> !(#[trigger] fields[i]).contains('\0'),
    ensures
        spec_split_zero(spec_joined_bytes(fields)) == fields.map_values(
            |f: Seq<char>| encode_utf8(f),
        ),
    decreases fields.len(),
{
    lemma_encode_utf8_zero_free(fields[0]);
    if fields.len() == 1 {
        lemma_split_zero_free(encode_utf8(fields[0]));
        assert(spec_split_zero(spec_joined_bytes(fields)) =~~= fields.map_values(
            |f: Seq<char>| encode_utf8(f),
        ));
    } else {
        let rest = fields.drop_first();
        assert(forall|i: int| 0 <= i < rest.len() ==> !(#[trigger] rest[i]).contains('\0')) by {
            assert(forall|i: int|
                0 <= i < rest.len() ==> #[trigger] rest[i] == fields[i + 1]);
        }
        lemma_split_joined(rest);
        lemma_split_sep(encode_utf8(fields[0]), spec_joined_bytes(rest));
        assert(spec_joined_bytes(fields) == encode_utf8(fields[0]) + seq![0u8]
            + spec_joined_bytes(rest));
        assert(spec_split_zero(spec_joined_bytes(fields)) =~~= fields.map_values(
            |f: Seq<char>| encode_utf8(f),
        ));
    }
}

/// A UTF-8 encoding takes at most four bytes per character.
pub proof fn lemma_encode_utf8_len(s: Seq<char>)
    ensures
        encode_utf8(s).len() <= 4 * s.len(),
    decreases s.len(),
{
    if s.len() > 0 {
        lemma_encode_utf8_len(s.drop_first());
    }
}

/// When every field has at most `m` characters, the joined body is at most
/// `4 * m + 1` bytes per field.
pub proof fn lemma_joined_bytes_len_bound(fields: Seq<Seq<char>>, m: nat)
    requires
        forall|i: int| 0 <= i < fields.len() ==> (#[trigger] fields[i]).len() <= m,
    ensures
        spec_joined_bytes(fields).len() <= fields.len() * (4 * m + 1),
    decreases fields.len(),
{
    if fields.len() == 0 {
    } else if fields.len() == 1 {
        lemma_encode_utf8_len(fields[0]);
        assert(fields.len() * (4 * m + 1) == 4 * m + 1) by (nonlinear_arith)
            requires
                fields.len() == 1,
        ;
    } else {
        lemma_encode_utf8_len(fields[0]);
        let rest = fields.drop_first();
        assert(forall|i: int|
            0 <= i < rest.len() ==> (#[trigger] rest[i]).len() <= m) by {
            assert(forall|i: int| 0 <= i < rest.len() ==> rest[i] == fields[i + 1]);
        }
        lemma_joined_bytes_len_bound(rest, m);
        assert(spec_joined_bytes(fields).len() <= fields.len() * (4 * m + 1)) by (nonlinear_arith)
            requires
                spec_joined_bytes(fields).len() == encode_utf8(fields[0]).len() + 1
                    + spec_joined_bytes(rest).len(),
                encode_utf8(fields[0]).len() <= 4 * m,
                spec_joined_bytes(rest).len() <= rest.len() * (4 * m + 1),
                rest.len() == fields.len() - 1,
                fields.len() >= 2,
        ;
    }
}

/// Framing round trip: a body-bearing message with a nonzero id, at least
/// one body field, NUL-free fields, and a body that fits the header's
/// length field decodes from its own wire form with the same type, id and
/// body.
pub proof fn lemma_round_trip(m: MessageModel)
    requires
        m.mtype.spec_has_body(),
        m.id != 0,
        m.body.len() >= 1,
        forall|i: int| 0 <= i < m.body.len() ==> !(#[trigger] m.body[i]).contains('\0'),
        spec_joined_bytes(m.body).len() <= 0xFFFF,
    ensures
        spec_deserilize(spec_serialize(m)) matches Ok(m2) && m2.mtype == m.mtype && m2.id == m.id
            && m2.body == m.body && m2.size == Some(spec_joined_bytes(m.body).len() as u16)
            && m2.status is None,
{
    let data = spec_serialize(m);
    let joined = spec_joined_bytes(m.body);
    let value = joined.len() as u16;
    let h = spec_header(m.mtype.spec_code(), m.id, value);
    assert(data.len() == 5 + joined.len());
    assert(data[0] == h[0] && data[1] == h[1] && data[2] == h[2] && data[3] == h[3] && data[4]
        == h[4]);
    lemma_type_code_round_trip(m.mtype);
    assert((data[1] as int * 256 + data[2] as int) as u16 == m.id);
    assert((data[3] as int * 256 + data[4] as int) as u16 == value);
    assert(!m.mtype.spec_is_status());
    assert(data.subrange(5, 5 + value as int) =~= joined);
    lemma_split_joined(m.body);
    let chunks = spec_split_zero(joined);
    assert(chunks.len() == m.body.len());
    assert forall|i: int| 0 <= i < chunks.len() implies valid_utf8(#[trigger] chunks[i])
        && decode_utf8(chunks[i]) == m.body[i] by {
        assert(chunks[i] == encode_utf8(m.body[i]));
        encode_utf8_valid_utf8(m.body[i]);
        encode_utf8_decode_utf8(m.body[i]);
    }
    assert(spec_body_valid(joined));
    assert(spec_body_fields(joined) =~= m.body);
}

/// The number of wire bytes a decoded message occupies: the header plus
/// the body length it declares (status-only types have none).
pub open spec fn spec_frame_len(m: MessageModel) -> nat {
    match m.size {
        Option::Some(s) => (5 + s) as nat,
        Option::None => 5nat,
    }
}

/// The errors that decoding a frame can produce.
pub open spec fn spec_is_decode_error(e: BlynkError) -> bool {
    ||| e == BlynkError::InvalidMessageHeader
    ||| e == BlynkError::InvalidMessageId
    ||| e == BlynkError::UnknownMessageType
    ||| e == BlynkError::InvalidStatus
    ||| e == BlynkError::InvalidMessageBody
    ||| e == BlynkError::UnsupportedInboundType
}

/// A frame whose id field is zero never decodes, whatever else it holds:
/// it fails with the invalid-id error (once it is long enough to carry a
/// header at all).
pub proof fn lemma_zero_id_rejected(data: Seq<u8>)
    requires
        data.len() >= 5,
        data[1] == 0,
        data[2] == 0,
    ensures
        spec_deserilize(data) == Err::<MessageModel, BlynkError>(BlynkError::InvalidMessageId),
{
}

/// Shape of any successfully decoded message: a nonzero id, and by type
/// either a status with no body or a body of at least one field with no
/// status.
pub proof fn lemma_deserilize_ok_shape(data: Seq<u8>)
    requires
        spec_deserilize(data) is Ok,
    ensures
        spec_deserilize(data) matches Ok(m) ==> {
            &&& m.id != 0
            &&& m.mtype.spec_is_status() || m.mtype.spec_has_body()
            &&& m.mtype.spec_is_status() ==> m.status is Some && m.size is None && m.body.len()
                == 0
            &&& m.mtype.spec_has_body() ==> m.size is Some && m.status is None && m.body.len()
                >= 1
        },
{
    let value = (data[3] as int * 256 + data[4] as int) as u16;
    let bb = data.subrange(5, 5 + value as int);
    lemma_split_zero_len(bb);
}

/// A chunk in progress prefixed onto the first chunk of an already-split
/// tail.
spec fn prepend_chunk(c: Seq<u8>, s: Seq<Seq<u8>>) -> Seq<Seq<u8>>
    recommends
        s.len() >= 1,
{
    seq![c + s[0]] + s.drop_first()
}

/// Splits a byte slice on NUL bytes.
fn split_zero(b: &[u8]) -> (r: Vec<Vec<u8>>)
    ensures
        r.deep_view() == spec_split_zero(b@),
{
    let mut fields: Vec<Vec<u8>> = Vec::new();
    let ghost mut gfields: Seq<Seq<u8>> = Seq::empty();
    let mut cur: Vec<u8> = Vec::new();
    let mut i: usize = 0;
    proof {
        lemma_split_zero_len(b@);
        assert(b@.skip(0) =~= b@);
        assert(prepend_chunk(cur@, spec_split_zero(b@)) =~= spec_split_zero(b@));
    }
    while i < b.len()
        invariant
            0 <= i <= b@.len(),
            fields@.len() == gfields.len(),
            forall|j: int| 0 <= j < gfields.len() ==> #[trigger] fields@[j]@ == gfields[j],
            spec_split_zero(b@) == gfields + prepend_chunk(
                cur@,
                spec_split_zero(b@.skip(i as int)),
            ),
        decreases b@.len() - i,
    {
        let ghost tail = b@.skip(i as int);
        let ghost tail1 = b@.skip(i + 1 as int);
        proof {
            assert(tail.len() > 0);
            assert(tail[0] == b@[i as int]);
            assert(tail.drop_first() =~= tail1);
            lemma_split_zero_len(tail1);
        }
        let byte = b[i];
        if byte == 0 {
            proof {
                let x = spec_split_zero(tail1);
                assert(spec_split_zero(tail) == seq![Seq::<u8>::empty()] + x);
                assert((seq![Seq::<u8>::empty()] + x)[0] =~= Seq::<u8>::empty());
                assert((seq![Seq::<u8>::empty()] + x).drop_first() =~= x);
                assert(cur@ + Seq::<u8>::empty() =~= cur@);
                assert(prepend_chunk(cur@, spec_split_zero(tail)) =~= seq![cur@] + x);
                assert(Seq::<u8>::empty() + x[0] =~= x[0]);
                assert(seq![x[0]] + x.drop_first() =~= x);
                assert(prepend_chunk(Seq::<u8>::empty(), x) =~= x);
                assert(gfields + prepend_chunk(cur@, spec_split_zero(tail)) =~= gfields.push(
                    cur@,
                ) + prepend_chunk(Seq::<u8>::empty(), x));
            }
            proof {
                gfields = gfields.push(cur@);
            }
            fields.push(cur);
            cur = Vec::new();
        } else {
            proof {
                let x = spec_split_zero(tail1);
                assert(spec_split_zero(tail) == seq![seq![byte] + x[0]] + x.drop_first());
                let st = spec_split_zero(tail);
                assert(st[0] =~= seq![byte] + x[0]);
                assert(st.drop_first() =~= x.drop_first());
                assert(cur@ + (seq![byte] + x[0]) =~= cur@.push(byte) + x[0]);
                assert(prepend_chunk(cur@, st) =~= prepend_chunk(cur@.push(byte), x));
            }
            cur.push(byte);
        }
        i += 1;
    }
    proof {
        assert(b@.skip(i as int) =~= Seq::<u8>::empty());
        assert(spec_split_zero(b@.skip(i as int)) == seq![Seq::<u8>::empty()]);
        assert(cur@ + Seq::<u8>::empty() =~= cur@);
        assert(prepend_chunk(cur@, seq![Seq::<u8>::empty()]) =~= seq![cur@]);
        assert(gfields + seq![cur@] =~= gfields.push(cur@));
    }
    proof {
        gfields = gfields.push(cur@);
    }
    fields.push(cur);
    proof {
        assert forall|j: int| 0 <= j < gfields.len() implies fields.deep_view()[j] == gfields[j] by {
            assert(fields@[j]@ == gfields[j]);
        }
        assert(fields.deep_view() =~= gfields);
    }
    fields
}

/// Relies on `String::from_utf8`: it succeeds exactly on valid UTF-8 input,
/// and the returned string's characters are the UTF-8 decoding of the
/// bytes.
#[verifier::external_body]
fn string_from_utf8(v: &Vec<u8>) -> (r: Option<String>)
    ensures
        r is Some <==> valid_utf8(v@),
        r matches Some(s) ==> s@ == decode_utf8(v@),
{
    match String::from_utf8(v.clone()) {
        Ok(s) => Some(s),
        Err(_) => None,
    }
}

impl Message {
    /// Decodes one message from the front of `rsp_data`, exactly as
    /// [`spec_deserilize`] describes: header checks first (length, nonzero
    /// id, known type code), then the type-directed interpretation of the
    /// header `value` as either a status or a body length.
    pub fn deserilize(rsp_data: &[u8]) -> (r: Result<Message, BlynkError>)
        ensures
            r matches Ok(m) ==> spec_deserilize(rsp_data@) == Ok::<MessageModel, BlynkError>(m@),
            r matches Err(e) ==> spec_deserilize(rsp_data@) == Err::<MessageModel, BlynkError>(e)
                && spec_is_decode_error(e),
    {
        let (mtype_raw, msg_id, h_data) = match ProtocolHeader::decode(rsp_data) {
            Ok(t) => t,
            Err(e) => {
                return Err(e);
            },
        };
        proof {
            let h = spec_header(mtype_raw, msg_id, h_data);
            assert(rsp_data@.subrange(0, 5)[0] == rsp_data@[0]);
            assert(rsp_data@.subrange(0, 5)[1] == rsp_data@[1]);
            assert(rsp_data@.subrange(0, 5)[2] == rsp_data@[2]);
            assert(rsp_data@.subrange(0, 5)[3] == rsp_data@[3]);
            assert(rsp_data@.subrange(0, 5)[4] == rsp_data@[4]);
            assert(rsp_data@[0] == mtype_raw);
            assert(rsp_data@[1] == h[1] && rsp_data@[2] == h[2]);
            assert(rsp_data@[3] == h[3] && rsp_data@[4] == h[4]);
            assert((msg_id / 256) as u8 as int * 256 + (msg_id % 256) as u8 as int == msg_id);
            assert((h_data / 256) as u8 as int * 256 + (h_data % 256) as u8 as int == h_data);
            assert((rsp_data@[1] as int * 256 + rsp_data@[2] as int) as u16 == msg_id);
            assert((rsp_data@[3] as int * 256 + rsp_data@[4] as int) as u16 == h_data);
        }
        if msg_id == 0 {
            return Err(BlynkError::InvalidMessageId);
        }
        let mtype = match MessageType::from_code(mtype_raw) {
            Some(t) => t,
            None => {
                return Err(BlynkError::UnknownMessageType);
            },
        };
        if mtype.is_status() {
            let status = match ProtocolStatus::from_code(h_data) {
                Some(s) => s,
                None => {
                    return Err(BlynkError::InvalidStatus);
                },
            };
            let m = Message {
                mtype,
                id: msg_id,
                size: None,
                status: Some(status),
                body: Vec::new(),
            };
            proof {
                assert(m@.body =~= Seq::<Seq<char>>::empty());
            }
            return Ok(m);
        }
        if !mtype.has_body() {
            return Err(BlynkError::UnsupportedInboundType);
        }
        let size = h_data as usize;
        if rsp_data.len() - 5 < size {
            return Err(BlynkError::InvalidMessageBody);
        }
        let body_slice = vstd::slice::slice_subrange(rsp_data, 5, 5 + size);
        let ghost bb = rsp_data@.subrange(5, 5 + h_data as int);
        let chunks = split_zero(body_slice);
        proof {
            assert(chunks.deep_view() == spec_split_zero(bb));
        }
        let mut body: Vec<String> = Vec::new();
        let mut i: usize = 0;
        while i < chunks.len()
            invariant
                0 <= i <= chunks@.len(),
                body@.len() == i,
                rsp_data@.len() >= 5 + h_data,
                (rsp_data@[1] as int * 256 + rsp_data@[2] as int) as u16 == msg_id,
                (rsp_data@[3] as int * 256 + rsp_data@[4] as int) as u16 == h_data,
                msg_id != 0,
                MessageType::spec_from_code(rsp_data@[0]) == Some(mtype),
                mtype.spec_has_body(),
                !mtype.spec_is_status(),
                bb == rsp_data@.subrange(5, 5 + h_data as int),
                chunks.deep_view() == spec_split_zero(bb),
                chunks@.len() == spec_split_zero(bb).len(),
                forall|j: int| 0 <= j < i ==> valid_utf8(#[trigger] spec_split_zero(bb)[j]),
                forall|j: int| 0 <= j < i ==> #[trigger] body@[j]@ == decode_utf8(
                    spec_split_zero(bb)[j],
                ),
            decreases chunks@.len() - i,
        {
            proof {
                assert(chunks.deep_view()[i as int] == chunks@[i as int]@);
            }
            match string_from_utf8(&chunks[i]) {
                Some(s) => body.push(s),
                None => {
                    proof {
                        assert(!valid_utf8(spec_split_zero(bb)[i as int]));
                        assert(!spec_body_valid(bb));
                    }
                    return Err(BlynkError::InvalidMessageBody);
                },
            }
            i += 1;
        }
        let m = Message { mtype, id: msg_id, size: Some(h_data), status: None, body };
        proof {
            assert(spec_body_valid(bb));
            assert forall|j: int| 0 <= j < m@.body.len() implies m@.body[j] == spec_body_fields(
                bb,
            )[j] by {
                assert(body@[j]@ == decode_utf8(spec_split_zero(bb)[j]));
            }
            assert(m@.body =~= spec_body_fields(bb));
        }
        Ok(m)
    }
}

} // verus!
