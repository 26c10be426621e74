use tls_deframer::deframer::{ByteSource, MessageDeframer};
use tls_deframer::enums::ContentType;
use tls_deframer::error::{Error, SourceError};
use tls_deframer::message::{Message, MAX_WIRE_SIZE};
use tls_deframer::record_layer::RecordLayer;

// A handshake record carrying one complete client-hello-shaped message:
// an eight-byte body behind the four-byte handshake header.
const FIRST_MESSAGE: &[u8] = &[
    0x16, 0x03, 0x03, 0x00, 0x0c, 0x01, 0x00, 0x00, 0x08, 0x0a, 0x0b, 0x0c, 0x0d, 0x0e, 0x0f,
    0x10, 0x11,
];

// An alert record: warning, close-notify.
const SECOND_MESSAGE: &[u8] = &[0x15, 0x03, 0x03, 0x00, 0x02, 0x01, 0x00];

const EMPTY_APPLICATIONDATA_MESSAGE: &[u8] = &[0x17, 0x03, 0x03, 0x00, 0x00];

// An alert record declaring a zero-length payload.
const INVALID_EMPTY_MESSAGE: &[u8] = &[0x15, 0x03, 0x03, 0x00, 0x00];
// A record with an unrecognized content type.
const INVALID_CONTENTTYPE_MESSAGE: &[u8] = &[0x01, 0x03, 0x03, 0x00, 0x02, 0x01, 0x00];
// A record whose version is outside the 0x03xx family.
const INVALID_VERSION_MESSAGE: &[u8] = &[0x16, 0x02, 0x02, 0x00, 0x02, 0x01, 0x00];
// A record declaring a payload beyond the maximum.
const INVALID_LENGTH_MESSAGE: &[u8] = &[0x16, 0x03, 0x03, 0x48, 0x00];

struct SliceSource {
    data: Vec<u8>,
    pos: usize,
}

impl SliceSource {
    fn new(bytes: &[u8]) -> Self {
        Self { data: bytes.to_vec(), pos: 0 }
    }
}

impl ByteSource for SliceSource {
    fn read_chunk(&mut self, max: usize) -> Result<Vec<u8>, SourceError> {
        let n = max.min(self.data.len() - self.pos);
        let chunk = self.data[self.pos..self.pos + n].to_vec();
        self.pos += n;
        Ok(chunk)
    }
}

struct ErrorRead {
    fired: bool,
}

impl ErrorRead {
    fn new() -> Self {
        Self { fired: false }
    }
}

impl ByteSource for ErrorRead {
    fn read_chunk(&mut self, _max: usize) -> Result<Vec<u8>, SourceError> {
        self.fired = true;
        Err(SourceError)
    }
}

fn input_bytes(d: &mut MessageDeframer, bytes: &[u8]) -> Result<usize, Error> {
    let mut rd = SliceSource::new(bytes);
    d.read(&mut rd)
}

fn input_bytes_concat(
    d: &mut MessageDeframer,
    bytes1: &[u8],
    bytes2: &[u8],
) -> Result<usize, Error> {
    let mut bytes = vec![0u8; bytes1.len() + bytes2.len()];
    bytes[..bytes1.len()].clone_from_slice(bytes1);
    bytes[bytes1.len()..].clone_from_slice(bytes2);
    let mut rd = SliceSource::new(&bytes);
    d.read(&mut rd)
}

fn input_error(d: &mut MessageDeframer) {
    let mut rd = ErrorRead::new();
    d.read(&mut rd).expect_err("error not propagated");
}

fn input_whole_incremental(d: &mut MessageDeframer, bytes: &[u8]) {
    let before = d.bytes_buffered();

    for i in 0..bytes.len() {
        assert_len(1, input_bytes(d, &bytes[i..i + 1]));
        assert!(d.has_pending());
    }

    assert_eq!(before + bytes.len(), d.bytes_buffered());
}

fn assert_len(want: usize, got: Result<usize, Error>) {
    if let Ok(gotval) = got {
        assert_eq!(gotval, want);
    } else {
        panic!("read failed, expected {:?} bytes", want);
    }
}

fn pop_first(d: &mut MessageDeframer, rl: &mut RecordLayer) {
    let m = d.pop(rl).unwrap().unwrap().message;
    assert_eq!(m.typ, ContentType::Handshake);
    Message::try_from(m).unwrap();
}

fn pop_second(d: &mut MessageDeframer, rl: &mut RecordLayer) {
    let m = d.pop(rl).unwrap().unwrap().message;
    assert_eq!(m.typ, ContentType::Alert);
    Message::try_from(m).unwrap();
}

#[test]
fn check_incremental() {
    let mut d = MessageDeframer::default();
    assert!(!d.has_pending());
    input_whole_incremental(&mut d, FIRST_MESSAGE);
    assert!(d.has_pending());

    let mut rl = RecordLayer::new();
    pop_first(&mut d, &mut rl);
    assert!(!d.has_pending());
    assert!(!d.is_desynced());
}

#[test]
fn check_incremental_2() {
    let mut d = MessageDeframer::default();
    assert!(!d.has_pending());
    input_whole_incremental(&mut d, FIRST_MESSAGE);
    assert!(d.has_pending());
    input_whole_incremental(&mut d, SECOND_MESSAGE);
    assert!(d.has_pending());

    let mut rl = RecordLayer::new();
    pop_first(&mut d, &mut rl);
    assert!(d.has_pending());
    pop_second(&mut d, &mut rl);
    assert!(!d.has_pending());
    assert!(!d.is_desynced());
}

#[test]
fn check_whole() {
    let mut d = MessageDeframer::default();
    assert!(!d.has_pending());
    assert_len(FIRST_MESSAGE.len(), input_bytes(&mut d, FIRST_MESSAGE));
    assert!(d.has_pending());

    let mut rl = RecordLayer::new();
    pop_first(&mut d, &mut rl);
    assert!(!d.has_pending());
    assert!(!d.is_desynced());
}

#[test]
fn check_whole_2() {
    let mut d = MessageDeframer::default();
    assert!(!d.has_pending());
    assert_len(FIRST_MESSAGE.len(), input_bytes(&mut d, FIRST_MESSAGE));
    assert_len(SECOND_MESSAGE.len(), input_bytes(&mut d, SECOND_MESSAGE));

    let mut rl = RecordLayer::new();
    pop_first(&mut d, &mut rl);
    pop_second(&mut d, &mut rl);
    assert!(!d.has_pending());
    assert!(!d.is_desynced());
}

#[test]
fn test_two_in_one_read() {
    let mut d = MessageDeframer::default();
    assert!(!d.has_pending());
    assert_len(
        FIRST_MESSAGE.len() + SECOND_MESSAGE.len(),
        input_bytes_concat(&mut d, FIRST_MESSAGE, SECOND_MESSAGE),
    );

    let mut rl = RecordLayer::new();
    pop_first(&mut d, &mut rl);
    pop_second(&mut d, &mut rl);
    assert!(!d.has_pending());
    assert!(!d.is_desynced());
}

#[test]
fn test_two_in_one_read_shortest_first() {
    let mut d = MessageDeframer::default();
    assert!(!d.has_pending());
    assert_len(
        FIRST_MESSAGE.len() + SECOND_MESSAGE.len(),
        input_bytes_concat(&mut d, SECOND_MESSAGE, FIRST_MESSAGE),
    );

    let mut rl = RecordLayer::new();
    pop_second(&mut d, &mut rl);
    pop_first(&mut d, &mut rl);
    assert!(!d.has_pending());
    assert!(!d.is_desynced());
}

#[test]
fn test_incremental_with_nonfatal_read_error() {
    let mut d = MessageDeframer::default();
    assert_len(3, input_bytes(&mut d, &FIRST_MESSAGE[..3]));
    input_error(&mut d);
    assert_len(FIRST_MESSAGE.len() - 3, input_bytes(&mut d, &FIRST_MESSAGE[3..]));

    let mut rl = RecordLayer::new();
    pop_first(&mut d, &mut rl);
    assert!(!d.has_pending());
    assert!(!d.is_desynced());
}

#[test]
fn test_invalid_contenttype_errors() {
    let mut d = MessageDeframer::default();
    assert_len(
        INVALID_CONTENTTYPE_MESSAGE.len(),
        input_bytes(&mut d, INVALID_CONTENTTYPE_MESSAGE),
    );

    let mut rl = RecordLayer::new();
    assert_eq!(d.pop(&mut rl).unwrap_err(), Error::CorruptMessage);
}

#[test]
fn test_invalid_version_errors() {
    let mut d = MessageDeframer::default();
    assert_len(INVALID_VERSION_MESSAGE.len(), input_bytes(&mut d, INVALID_VERSION_MESSAGE));

    let mut rl = RecordLayer::new();
    assert_eq!(d.pop(&mut rl).unwrap_err(), Error::CorruptMessage);
}

#[test]
fn test_invalid_length_errors() {
    let mut d = MessageDeframer::default();
    assert_len(INVALID_LENGTH_MESSAGE.len(), input_bytes(&mut d, INVALID_LENGTH_MESSAGE));

    let mut rl = RecordLayer::new();
    assert_eq!(d.pop(&mut rl).unwrap_err(), Error::CorruptMessage);
}

#[test]
fn test_empty_applicationdata() {
    let mut d = MessageDeframer::default();
    assert_len(
        EMPTY_APPLICATIONDATA_MESSAGE.len(),
        input_bytes(&mut d, EMPTY_APPLICATIONDATA_MESSAGE),
    );

    let mut rl = RecordLayer::new();
    let m = d.pop(&mut rl).unwrap().unwrap().message;
    assert_eq!(m.typ, ContentType::ApplicationData);
    assert_eq!(m.payload.0.len(), 0);
    assert!(!d.has_pending());
    assert!(!d.is_desynced());
}

#[test]
fn test_invalid_empty_errors() {
    let mut d = MessageDeframer::default();
    assert_len(INVALID_EMPTY_MESSAGE.len(), input_bytes(&mut d, INVALID_EMPTY_MESSAGE));

    let mut rl = RecordLayer::new();
    assert_eq!(d.pop(&mut rl).unwrap_err(), Error::CorruptMessage);
    // CorruptMessage has been fused
    assert_eq!(d.pop(&mut rl).unwrap_err(), Error::CorruptMessage);
}

#[test]
fn test_limited_buffer() {
    const PAYLOAD_LEN: usize = 16_384;
    let mut message = Vec::with_capacity(16_389);
    message.push(0x17); // ApplicationData
    message.extend(&[0x03, 0x04]); // ProtocolVersion
    message.extend((PAYLOAD_LEN as u16).to_be_bytes()); // payload length
    message.extend(&[0; PAYLOAD_LEN]);

    let mut d = MessageDeframer::default();
    assert_len(4096, input_bytes(&mut d, &message));
    assert_len(4096, input_bytes(&mut d, &message));
    assert_len(4096, input_bytes(&mut d, &message));
    assert_len(4096, input_bytes(&mut d, &message));
    assert_len(MAX_WIRE_SIZE - 16_384, input_bytes(&mut d, &message));
    assert!(input_bytes(&mut d, &message).is_err());
}
