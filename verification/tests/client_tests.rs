use blynk_io::client::Client;
use blynk_io::message::{Message, MessageType, ProtocolStatus};
use blynk_io::transport::Transport;
use blynk_io::BlynkError;

/// In-memory transport: scripted inbound bytes, a log of written frames,
/// and switches that make writes or reads fail.
#[derive(Default)]
struct FakeTransport {
    data: Vec<u8>,
    pos: usize,
    written: Vec<Vec<u8>>,
    fail_writes: bool,
    fail_flushes: bool,
    fail_peek: bool,
    write_attempts: u32,
}

impl FakeTransport {
    fn with_data(data: Vec<u8>) -> FakeTransport {
        FakeTransport { data, ..Default::default() }
    }
}

impl Transport for FakeTransport {
    fn write_all(&mut self, data: &[u8]) -> bool {
        self.write_attempts += 1;
        if self.fail_writes {
            return false;
        }
        self.written.push(data.to_vec());
        true
    }

    fn flush(&mut self) -> bool {
        !self.fail_flushes
    }

    fn peek(&mut self) -> Option<Vec<u8>> {
        if self.fail_peek {
            return None;
        }
        Some(self.data[self.pos.min(self.data.len())..].to_vec())
    }

    fn consume(&mut self, amt: usize) {
        self.pos = (self.pos + amt).min(self.data.len());
    }

    fn set_read_timeout(&mut self, _timeout_ms: u64) {}

    fn retry_delay(&mut self) {}

    fn shutdown(&mut self) {}
}

#[test]
fn msg_id_incremeneted_on_send() {
    let mut client: Client<FakeTransport> = Client::new();
    client.msg_id = 3;
    client.ping().unwrap_or_default();
    assert_eq!(4, client.msg_id)
}

#[test]
fn msg_id_customized() {
    let mut client: Client<FakeTransport> = Client::new();
    client.msg_id = 3;
    client.response(200, 42).unwrap_or_default();
    // inspect the message
    assert_eq!(3, client.msg_id)
}

#[test]
fn propagate_send_err() {
    let mut client: Client<FakeTransport> = Client::new();
    client.msg_id = 3;
    assert!(client.ping().is_err());
}

#[test]
fn ping_generates_seralized_message() {
    let mut client: Client<FakeTransport> = Client::new();
    client.set_stream(FakeTransport::default());

    // intercept message into the fake transport
    client.ping().unwrap();

    let transport = client.transport.unwrap();
    let buf = &transport.written[0];

    let msg = Message::new(MessageType::Ping, 1, None, None, vec![""]);
    let data = msg.serialize();
    // compare generated headers
    assert_eq!(&data[..5], &buf[..5]);
}

#[test]
fn read_empty_buffer_errors() {
    // try to read when the buffer is empty
    let mut client: Client<FakeTransport> = Client::new();
    client.set_stream(FakeTransport::default());
    let err = client.read().err().unwrap();
    assert!(matches!(err, BlynkError::EmptyBuffer));
    assert_eq!("No message to process", err.message());
}

#[test]
fn read_message() {
    // succesful message read
    let msg = Message::new(MessageType::Hw, 1, None, None, vec![""]);
    let mut client: Client<FakeTransport> = Client::new();
    client.set_stream(FakeTransport::with_data(msg.serialize()));
    assert!(client.read().is_ok());
}

#[test]
fn read_without_transport_errors() {
    let mut client: Client<FakeTransport> = Client::new();
    let err = client.read().err().unwrap();
    assert!(matches!(err, BlynkError::ReaderNotAvailable));
}

#[test]
fn read_io_error_is_not_empty_buffer() {
    let mut client: Client<FakeTransport> = Client::new();
    let mut t = FakeTransport::default();
    t.fail_peek = true;
    client.set_stream(t);
    let err = client.read().err().unwrap();
    assert!(matches!(err, BlynkError::Io));
}

#[test]
fn read_consumes_exactly_one_frame() {
    let first = Message::new(MessageType::Hw, 1, None, None, vec!["vr", "5"]).serialize();
    let second = Message::new(MessageType::Hw, 2, None, None, vec!["vr", "6"]).serialize();
    let mut data = first.clone();
    data.extend_from_slice(&second);
    let mut client: Client<FakeTransport> = Client::new();
    client.set_stream(FakeTransport::with_data(data));
    let m1 = client.read().unwrap();
    assert_eq!(1, m1.id);
    let m2 = client.read().unwrap();
    assert_eq!(2, m2.id);
    assert_eq!(vec!["vr", "6"], m2.body);
}

#[test]
fn msg_ids_strictly_increase_and_are_nonzero() {
    let mut client: Client<FakeTransport> = Client::new();
    client.set_stream(FakeTransport::default());
    client.ping().unwrap();
    assert_eq!(1, client.msg_id);
    client.ping().unwrap();
    assert_eq!(2, client.msg_id);
    client.virtual_write(4, "x").unwrap();
    assert_eq!(3, client.msg_id);
    let transport = client.transport.unwrap();
    // the id travels in header bytes 1 and 2, big-endian
    assert_eq!(&[0, 1], &transport.written[0][1..3]);
    assert_eq!(&[0, 2], &transport.written[1][1..3]);
    assert_eq!(&[0, 3], &transport.written[2][1..3]);
}

#[test]
fn retry_exhaustion_fails_send_after_three_attempts() {
    let mut client: Client<FakeTransport> = Client::new();
    let mut t = FakeTransport::default();
    t.fail_writes = true;
    client.set_stream(t);
    let err = client.ping().err().unwrap();
    assert!(matches!(err, BlynkError::MessageSend));
    let transport = client.transport.unwrap();
    assert_eq!(3, transport.write_attempts);
    // nothing was delivered
    assert_eq!(0, transport.written.len());
}

#[test]
fn flush_failure_also_exhausts_retries() {
    let mut client: Client<FakeTransport> = Client::new();
    let mut t = FakeTransport::default();
    t.fail_flushes = true;
    client.set_stream(t);
    let err = client.ping().err().unwrap();
    assert!(matches!(err, BlynkError::MessageSend));
    assert_eq!(3, client.transport.unwrap().write_attempts);
}

#[test]
fn response_frame_carries_status_in_header() {
    let mut client: Client<FakeTransport> = Client::new();
    client.set_stream(FakeTransport::default());
    client.response(200, 42).unwrap();
    let transport = client.transport.unwrap();
    assert_eq!(vec![0, 0, 42, 0, 200], transport.written[0]);

    // the reply decodes back as a Response with the same id and an Ok status
    let dmsg = Message::deserilize(&transport.written[0]).unwrap();
    assert_eq!(MessageType::Rsp.code(), dmsg.mtype.code());
    assert_eq!(42, dmsg.id);
    assert_eq!(ProtocolStatus::StatusOk.code(), dmsg.status.unwrap().code());
    assert!(dmsg.body.is_empty());
}

#[test]
fn disconnect_resets_id_counter_and_drops_transport() {
    let mut client: Client<FakeTransport> = Client::new();
    client.set_stream(FakeTransport::default());
    client.ping().unwrap();
    assert_eq!(1, client.msg_id);
    client.disconnect();
    assert_eq!(0, client.msg_id);
    assert!(client.transport.is_none());
}

#[test]
fn heartbeat_frame_advertises_parameters() {
    let mut client: Client<FakeTransport> = Client::new();
    client.set_stream(FakeTransport::default());
    client.heartbeat(5, 1024).unwrap();
    let transport = client.transport.unwrap();
    let frame = &transport.written[0];
    let body = String::from_utf8(frame[5..].to_vec()).unwrap();
    assert_eq!("ver\00.1.0\0buff-in\01024\0h-beat\05\0dev\0rust", body);
    assert_eq!(MessageType::Internal.code(), frame[0]);
}

#[test]
fn outbound_frames_are_exact() {
    let mut client: Client<FakeTransport> = Client::new();
    client.set_stream(FakeTransport::default());
    client.login("tok").unwrap();
    client.virtual_write(3, "hi").unwrap();
    client.email("a@b", "s", "body").unwrap();
    client.set_property(9, "color", "red").unwrap();
    client.tweet("t").unwrap();
    client.notify("n").unwrap();
    client.internal(vec!["rtc", "sync"]).unwrap();
    let transport = client.transport.unwrap();
    let written = &transport.written;
    assert_eq!(vec![2, 0, 1, 0, 3, b't', b'o', b'k'], written[0]);
    assert_eq!(b"vw\x003\x00hi".to_vec(), written[1][5..].to_vec());
    assert_eq!(b"a@b\x00s\x00body".to_vec(), written[2][5..].to_vec());
    assert_eq!(b"9\x00color\x00red".to_vec(), written[3][5..].to_vec());
    assert_eq!(vec![12, 0, 5, 0, 1, b't'], written[4]);
    assert_eq!(vec![14, 0, 6, 0, 1, b'n'], written[5]);
    assert_eq!(b"rtc\x00sync".to_vec(), written[6][5..].to_vec());
    assert_eq!(vec![17, 0, 7, 0, 8], written[6][..5].to_vec());
}

#[test]
fn virtual_sync_renders_pins_as_digits() {
    let mut client: Client<FakeTransport> = Client::new();
    client.set_stream(FakeTransport::default());
    client.virtual_sync(vec![1, 2, 9]).unwrap();
    let transport = client.transport.unwrap();
    let frame = &transport.written[0];
    assert_eq!(MessageType::HwSync.code(), frame[0]);
    assert_eq!(b"vr\0129", &frame[5..]);
}
