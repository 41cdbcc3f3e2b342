use blynk_io::codec::ProtocolHeader;
use blynk_io::message::{Message, MessageType, ProtocolStatus};
use blynk_io::BlynkError;

#[test]
fn serialize_and_deserialize() {
    let msg = Message::new(
        MessageType::Ping,
        32,
        None,
        Some(ProtocolStatus::StatusOk),
        vec![""; 201],
    );
    let data = msg.serialize();
    let dmsg = Message::deserilize(&data).unwrap();
    assert_eq!(msg.mtype.code(), dmsg.mtype.code());
    assert_eq!(msg.id, dmsg.id);
    assert_eq!(msg.size, dmsg.size);
    assert_eq!(msg.status.unwrap().code(), dmsg.status.unwrap().code());
    assert_ne!(msg.body, dmsg.body);
}

#[test]
fn deserialize_response() {
    let mut data = vec!["test", "it"].join("\0").as_bytes().to_vec();

    let mut buffer = ProtocolHeader::encode(MessageType::Hw.code(), 32, data.len() as u16);
    buffer.append(&mut data);

    let dmsg = Message::deserilize(&buffer).unwrap();
    assert_eq!(MessageType::Hw.code(), dmsg.mtype.code());
    assert_eq!(32, dmsg.id);
    assert_eq!(7, dmsg.size.unwrap());
    assert_eq!(true, dmsg.status.is_none());
    assert_eq!(vec!["test", "it"], dmsg.body);
}

#[test]
fn serialize_with_payload() {
    let msg = Message::new(MessageType::Hw, 32, None, None, vec!["a", "b", "c"]);

    let data = msg.serialize();
    let header: Vec<u8> = vec![MessageType::Hw.code(), 0, 32, 0, 5];
    assert_eq!(header, &data[..5]);

    let payload: Vec<u8> = vec!['a', '\0', 'b', '\0', 'c']
        .iter()
        .map(|c| *c as u8)
        .collect::<Vec<_>>();
    assert_eq!(payload, &data[5..]);
}

#[test]
fn framing_round_trip_concrete() {
    let msg = Message::new(MessageType::Bridge, 7, None, None, vec!["alpha", "", "beta"]);
    let data = msg.serialize();
    let dmsg = Message::deserilize(&data).unwrap();
    assert_eq!(MessageType::Bridge.code(), dmsg.mtype.code());
    assert_eq!(7, dmsg.id);
    assert_eq!(vec!["alpha", "", "beta"], dmsg.body);
    assert_eq!(Some(11), dmsg.size);
}

#[test]
fn multibyte_body_field_round_trips() {
    // 0xC3 0xA9 is the two-byte UTF-8 encoding of 'é'.
    let frame: Vec<u8> = vec![MessageType::Hw.code(), 0, 1, 0, 2, 0xC3, 0xA9];
    let dmsg = Message::deserilize(&frame).unwrap();
    assert_eq!(vec!["\u{e9}"], dmsg.body);

    let msg = Message::new(MessageType::Hw, 1, None, None, vec!["\u{e9}"]);
    assert_eq!(frame, msg.serialize());
}

#[test]
fn zero_id_rejected() {
    // A well-formed Ping frame except that its id is 0.
    let frame: Vec<u8> = vec![MessageType::Ping.code(), 0, 0, 0, 200];
    let err = Message::deserilize(&frame).unwrap_err();
    assert!(matches!(err, BlynkError::InvalidMessageId));
}

#[test]
fn short_header_rejected() {
    let err = Message::deserilize(&[20, 0]).unwrap_err();
    assert!(matches!(err, BlynkError::InvalidMessageHeader));
}

#[test]
fn unknown_type_rejected() {
    let frame: Vec<u8> = vec![99, 0, 1, 0, 0];
    let err = Message::deserilize(&frame).unwrap_err();
    assert!(matches!(err, BlynkError::UnknownMessageType));
}

#[test]
fn unknown_status_rejected() {
    let frame: Vec<u8> = vec![MessageType::Ping.code(), 0, 1, 0, 77];
    let err = Message::deserilize(&frame).unwrap_err();
    assert!(matches!(err, BlynkError::InvalidStatus));
}

#[test]
fn invalid_utf8_body_rejected() {
    let frame: Vec<u8> = vec![MessageType::Hw.code(), 0, 1, 0, 2, 0xFF, 0xFE];
    let err = Message::deserilize(&frame).unwrap_err();
    assert!(matches!(err, BlynkError::InvalidMessageBody));
}

#[test]
fn truncated_body_rejected() {
    // The header promises a five-byte body but only two bytes follow.
    let frame: Vec<u8> = vec![MessageType::Hw.code(), 0, 1, 0, 5, b'a', b'b'];
    let err = Message::deserilize(&frame).unwrap_err();
    assert!(matches!(err, BlynkError::InvalidMessageBody));
}

#[test]
fn outbound_only_type_rejected_inbound() {
    let frame: Vec<u8> = vec![MessageType::Login.code(), 0, 1, 0, 0];
    let err = Message::deserilize(&frame).unwrap_err();
    assert!(matches!(err, BlynkError::UnsupportedInboundType));
}

#[test]
fn header_codec_round_trips() {
    let bytes = ProtocolHeader::encode(41, 0x1234, 0xBEEF);
    assert_eq!(vec![41, 0x12, 0x34, 0xBE, 0xEF], bytes);
    let (t, id, value) = ProtocolHeader::decode(&bytes).unwrap();
    assert_eq!((41, 0x1234, 0xBEEF), (t, id, value));
}

#[test]
fn header_decode_needs_five_bytes() {
    let err = ProtocolHeader::decode(&[1, 2, 3, 4]).unwrap_err();
    assert!(matches!(err, BlynkError::InvalidMessageHeader));
}

#[test]
fn empty_body_decodes_to_one_empty_field() {
    let frame: Vec<u8> = vec![MessageType::Internal.code(), 0, 3, 0, 0];
    let dmsg = Message::deserilize(&frame).unwrap();
    assert_eq!(vec![""], dmsg.body);
    assert_eq!(Some(0), dmsg.size);
}
