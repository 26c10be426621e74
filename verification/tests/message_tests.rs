use tls_deframer::base::{Payload, PayloadU16, PayloadU24, PayloadU8};
use tls_deframer::codec::Reader;
use tls_deframer::enums::{AlertDescription, AlertLevel, ContentType, HandshakeType,
    ProtocolVersion};
use tls_deframer::error::Error;
use tls_deframer::message::{Message, MessagePayload, OpaqueMessage, PlainMessage};

// A flight of three records, each carrying one complete handshake
// message: client hello, server hello, finished.
const HANDSHAKE_FLIGHT: &[u8] = &[
    0x16, 0x03, 0x01, 0x00, 0x08, 0x01, 0x00, 0x00, 0x04, 0x09, 0x09, 0x09, 0x09, // hello
    0x16, 0x03, 0x03, 0x00, 0x06, 0x02, 0x00, 0x00, 0x02, 0x05, 0x05, // server hello
    0x16, 0x03, 0x03, 0x00, 0x05, 0x14, 0x00, 0x00, 0x01, 0xab, // finished
];

#[test]
fn smoketest() {
    let bytes = HANDSHAKE_FLIGHT.to_vec();

    let mut cur = 0;
    while cur < bytes.len() {
        let m = OpaqueMessage::read(&bytes[cur..]).unwrap();
        cur += m.len();

        Message::try_from(m.to_plain_message()).unwrap();
    }
}

#[test]
fn test_read_encode_round_trip() {
    let records: [&[u8]; 4] = [
        // handshake
        &[0x16, 0x03, 0x03, 0x00, 0x0c, 0x01, 0x00, 0x00, 0x08, 1, 2, 3, 4, 5, 6, 7, 8],
        // alert
        &[0x15, 0x03, 0x03, 0x00, 0x02, 0x02, 0x00],
        // empty application data
        &[0x17, 0x03, 0x03, 0x00, 0x00],
        // change cipher spec
        &[0x14, 0x03, 0x03, 0x00, 0x01, 0x01],
    ];
    for data in records {
        // Re-encoding the parsed record reproduces the bytes exactly.
        let m = OpaqueMessage::read(data).unwrap();
        let used = m.len();
        assert_eq!(m.encode(), data[..used].to_vec());

        // The same holds across the full decode into a typed message.
        let m = OpaqueMessage::read(data).unwrap();
        let msg = Message::try_from(m.to_plain_message()).unwrap();
        let enc = PlainMessage::from(msg).into_unencrypted_opaque().encode();
        assert_eq!(enc, data[..used].to_vec());
    }
}

#[test]
fn test_read_rejects_bad_records() {
    // Too short for the record header.
    assert!(matches!(
        OpaqueMessage::read(&[0x16, 0x03, 0x03, 0x00]),
        Err(tls_deframer::message::MessageError::TooShortForHeader)
    ));
    // Too short for the declared length.
    assert!(matches!(
        OpaqueMessage::read(&[0x16, 0x03, 0x03, 0x00, 0x02, 0x01]),
        Err(tls_deframer::message::MessageError::TooShortForLength)
    ));
    // Zero-length non-application-data record.
    assert!(matches!(
        OpaqueMessage::read(&[0x16, 0x03, 0x03, 0x00, 0x00]),
        Err(tls_deframer::message::MessageError::IllegalLength)
    ));
    // Declared length at the ceiling (16384 + 2048).
    assert!(matches!(
        OpaqueMessage::read(&[0x17, 0x03, 0x03, 0x48, 0x00]),
        Err(tls_deframer::message::MessageError::IllegalLength)
    ));
    // Unrecognized content type.
    assert!(matches!(
        OpaqueMessage::read(&[0x00, 0x03, 0x03, 0x00, 0x01, 0x00]),
        Err(tls_deframer::message::MessageError::IllegalContentType)
    ));
    // Version outside the 0x03xx family.
    assert!(matches!(
        OpaqueMessage::read(&[0x16, 0x04, 0x00, 0x00, 0x01, 0x00]),
        Err(tls_deframer::message::MessageError::IllegalProtocolVersion)
    ));
    // A zero-length application-data record is fine.
    let m = OpaqueMessage::read(&[0x17, 0x03, 0x03, 0x00, 0x00]).unwrap();
    assert_eq!(m.typ, ContentType::ApplicationData);
    assert_eq!(m.len(), 5);
}

#[test]
fn test_message_decode_exact_consumption() {
    let plain = |typ: ContentType, body: &[u8]| PlainMessage {
        typ,
        version: ProtocolVersion::TLSv1_2,
        payload: Payload::new(body.to_vec()),
    };

    // Trailing bytes after a complete alert are a decode failure.
    assert_eq!(
        Message::try_from(plain(ContentType::Alert, &[1, 0, 99])).unwrap_err(),
        Error::CorruptMessagePayload(ContentType::Alert)
    );
    // So is a truncated alert.
    assert_eq!(
        Message::try_from(plain(ContentType::Alert, &[1])).unwrap_err(),
        Error::CorruptMessagePayload(ContentType::Alert)
    );
    // A handshake message whose declared body length disagrees fails.
    assert_eq!(
        Message::try_from(plain(ContentType::Handshake, &[1, 0, 0, 5, 9])).unwrap_err(),
        Error::CorruptMessagePayload(ContentType::Handshake)
    );
    // A change-cipher-spec body is exactly one byte.
    assert_eq!(
        Message::try_from(plain(ContentType::ChangeCipherSpec, &[1, 1])).unwrap_err(),
        Error::CorruptMessagePayload(ContentType::ChangeCipherSpec)
    );
    // An unrecognized inner type never decodes.
    assert_eq!(
        Message::try_from(plain(ContentType::Unknown(99), &[1])).unwrap_err(),
        Error::CorruptMessagePayload(ContentType::Unknown(99))
    );
    // Application data of any length is accepted as raw bytes.
    let m = Message::try_from(plain(ContentType::ApplicationData, &[7, 8, 9])).unwrap();
    match m.payload {
        MessagePayload::ApplicationData(p) => assert_eq!(p.0, vec![7, 8, 9]),
        _ => panic!("wrong payload kind"),
    }
}

#[test]
fn test_alert_and_handshake_fields() {
    let alert = PlainMessage {
        typ: ContentType::Alert,
        version: ProtocolVersion::TLSv1_2,
        payload: Payload::new(vec![2, 0]),
    };
    let m = Message::try_from(alert).unwrap();
    match m.payload {
        MessagePayload::Alert(a) => {
            assert_eq!(a.level, AlertLevel::Fatal);
            assert_eq!(a.description, AlertDescription::CloseNotify);
        },
        _ => panic!("wrong payload kind"),
    }

    let hs = PlainMessage {
        typ: ContentType::Handshake,
        version: ProtocolVersion::TLSv1_3,
        payload: Payload::new(vec![1, 0, 0, 2, 0xaa, 0xbb]),
    };
    let m = Message::try_from(hs).unwrap();
    assert!(m.is_handshake_type(HandshakeType::ClientHello));
    assert!(!m.is_handshake_type(HandshakeType::Finished));
    match m.payload {
        MessagePayload::Handshake { parsed, encoded } => {
            assert_eq!(parsed.typ, HandshakeType::ClientHello);
            assert_eq!(parsed.payload.0, vec![0xaa, 0xbb]);
            assert_eq!(encoded.0, vec![1, 0, 0, 2, 0xaa, 0xbb]);
        },
        _ => panic!("wrong payload kind"),
    }
}

#[test]
fn test_builders() {
    let m = Message::build_alert(AlertLevel::Warning, AlertDescription::DecodeError);
    assert_eq!(m.version, ProtocolVersion::TLSv1_2);
    let p = PlainMessage::from(m);
    assert_eq!(p.typ, ContentType::Alert);
    assert_eq!(p.payload.0, vec![1, 50]);

    let m = Message::build_key_update_notify();
    assert_eq!(m.version, ProtocolVersion::TLSv1_3);
    assert!(m.is_handshake_type(HandshakeType::KeyUpdate));
    let p = PlainMessage::from(m);
    assert_eq!(p.typ, ContentType::Handshake);
    assert_eq!(p.payload.0, vec![24, 0, 0, 1, 0]);
}

#[test]
fn test_opaque_conversions() {
    let data: &[u8] = &[0x17, 0x03, 0x03, 0x00, 0x03, 1, 2, 3];
    let m = OpaqueMessage::read(data).unwrap();
    assert_eq!(m.len(), 8);

    let owned = m.to_owned();
    assert_eq!(owned.typ, m.typ);
    assert_eq!(owned.version, m.version);

    let plain = m.to_plain_message();
    assert_eq!(plain.typ, ContentType::ApplicationData);
    assert_eq!(plain.payload.0, vec![1, 2, 3]);

    let borrowed = plain.borrow();
    assert_eq!(borrowed.typ, ContentType::ApplicationData);
    assert_eq!(borrowed.payload, vec![1, 2, 3]);

    let back = borrowed.to_unencrypted_opaque();
    assert_eq!(back.typ, ContentType::ApplicationData);
    assert_eq!(back.encode(), data.to_vec());

    let opaque = plain.into_unencrypted_opaque();
    assert_eq!(opaque.encode(), data.to_vec());
}

#[test]
fn test_payload_primitives() {
    let mut buf = Vec::new();
    PayloadU8::new(vec![1, 2]).encode(&mut buf);
    assert_eq!(buf, vec![2, 1, 2]);

    let mut buf = Vec::new();
    PayloadU16::new(vec![1, 2]).encode(&mut buf);
    assert_eq!(buf, vec![0, 2, 1, 2]);

    let mut buf = Vec::new();
    PayloadU16::encode_slice(&[9, 8, 7], &mut buf);
    assert_eq!(buf, vec![0, 3, 9, 8, 7]);

    let mut buf = Vec::new();
    PayloadU24::new(vec![1, 2]).encode(&mut buf);
    assert_eq!(buf, vec![0, 0, 2, 1, 2]);

    assert_eq!(PayloadU8::empty().0, Vec::<u8>::new());
    assert_eq!(PayloadU16::empty().0, Vec::<u8>::new());
    assert_eq!(PayloadU8::new(vec![5, 6]).into_inner(), vec![5, 6]);

    let p = Payload::new(vec![3, 4]);
    assert_eq!(p.to_owned().0, vec![3, 4]);
    assert_eq!(Payload::empty().0, Vec::<u8>::new());
    let mut buf = Vec::new();
    p.encode(&mut buf);
    assert_eq!(buf, vec![3, 4]);
}

#[test]
fn test_reader_and_prefixed_reads() {
    let mut r = Reader::init(vec![0, 2, 7, 8, 9]);
    let p = PayloadU16::read(&mut r).unwrap();
    assert_eq!(p.0, vec![7, 8]);
    assert!(r.any_left());
    assert_eq!(r.left(), 1);
    let rest = Payload::read(&mut r);
    assert_eq!(rest.0, vec![9]);
    assert!(!r.any_left());

    // A declared length beyond what remains fails.
    let mut r = Reader::init(vec![0, 3, 7, 8]);
    assert!(PayloadU16::read(&mut r).is_none());

    let mut r = Reader::init(vec![2, 5, 6]);
    let p = PayloadU8::read(&mut r).unwrap();
    assert_eq!(p.0, vec![5, 6]);

    let mut r = Reader::init(vec![0, 0, 2, 5, 6]);
    let p = PayloadU24::read(&mut r).unwrap();
    assert_eq!(p.0, vec![5, 6]);

    let mut r = Reader::init(vec![1, 2, 3]);
    let taken = r.take(2).unwrap();
    assert_eq!(taken, vec![1, 2]);
    assert!(r.take(2).is_none());
    assert_eq!(r.take(1).unwrap(), vec![3]);
}

#[test]
fn test_message_payload_encode() {
    let alert = MessagePayload::new(
        ContentType::Alert,
        ProtocolVersion::TLSv1_2,
        Payload::new(vec![1, 0]),
    )
    .unwrap();
    let mut buf = Vec::new();
    alert.encode(&mut buf);
    assert_eq!(buf, vec![1, 0]);
    assert_eq!(alert.content_type(), ContentType::Alert);

    let ccs = MessagePayload::new(
        ContentType::ChangeCipherSpec,
        ProtocolVersion::TLSv1_2,
        Payload::new(vec![1]),
    )
    .unwrap();
    let mut buf = Vec::new();
    ccs.encode(&mut buf);
    assert_eq!(buf, vec![1]);
    assert_eq!(ccs.content_type(), ContentType::ChangeCipherSpec);

    let hs = MessagePayload::new(
        ContentType::Handshake,
        ProtocolVersion::TLSv1_3,
        Payload::new(vec![2, 0, 0, 1, 9]),
    )
    .unwrap();
    let mut buf = Vec::new();
    hs.encode(&mut buf);
    assert_eq!(buf, vec![2, 0, 0, 1, 9]);
    assert_eq!(hs.content_type(), ContentType::Handshake);

    // Wrapping a parsed handshake message re-derives the same encoding.
    let parsed = match hs {
        MessagePayload::Handshake { parsed, .. } => parsed,
        _ => panic!("wrong payload kind"),
    };
    let rebuilt = MessagePayload::handshake(parsed);
    let mut buf = Vec::new();
    rebuilt.encode(&mut buf);
    assert_eq!(buf, vec![2, 0, 0, 1, 9]);

    let app = MessagePayload::new(
        ContentType::ApplicationData,
        ProtocolVersion::TLSv1_2,
        Payload::new(vec![4, 5]),
    )
    .unwrap();
    let mut buf = Vec::new();
    app.encode(&mut buf);
    assert_eq!(buf, vec![4, 5]);
    assert_eq!(app.content_type(), ContentType::ApplicationData);
}

#[test]
fn test_enum_wire_values() {
    assert_eq!(ContentType::from_byte(20), ContentType::ChangeCipherSpec);
    assert_eq!(ContentType::from_byte(21), ContentType::Alert);
    assert_eq!(ContentType::from_byte(22), ContentType::Handshake);
    assert_eq!(ContentType::from_byte(23), ContentType::ApplicationData);
    assert_eq!(ContentType::from_byte(99), ContentType::Unknown(99));
    assert_eq!(ContentType::Handshake.get_u8(), 22);
    assert_eq!(ContentType::Unknown(99).get_u8(), 99);

    assert_eq!(ProtocolVersion::from_u16(0x0303), ProtocolVersion::TLSv1_2);
    assert_eq!(ProtocolVersion::from_u16(0x0304), ProtocolVersion::TLSv1_3);
    assert_eq!(ProtocolVersion::from_u16(0x0301), ProtocolVersion::Unknown(0x0301));
    assert_eq!(ProtocolVersion::TLSv1_3.get_u16(), 0x0304);

    assert_eq!(HandshakeType::from_byte(1), HandshakeType::ClientHello);
    assert_eq!(HandshakeType::from_byte(24), HandshakeType::KeyUpdate);
    assert_eq!(HandshakeType::Finished.get_u8(), 20);

    assert_eq!(AlertLevel::from_byte(1), AlertLevel::Warning);
    assert_eq!(AlertLevel::from_byte(2), AlertLevel::Fatal);
    assert_eq!(AlertDescription::from_byte(0), AlertDescription::CloseNotify);
    assert_eq!(AlertDescription::from_byte(10), AlertDescription::UnexpectedMessage);
    assert_eq!(AlertDescription::Unknown(77).get_u8(), 77);
}
