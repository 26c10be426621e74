//! The three forms of a protocol unit: the on-wire opaque record, the
//! decrypted plaintext record, and the fully decoded typed message.

use vstd::prelude::*;

use crate::base::Payload;
use crate::codec::{bytes_of, put_u16, put_u24, spec_u16_bytes, spec_u16_of, spec_u24_bytes,
    spec_u24_of, lemma_u16_round_trip, Reader};
use crate::enums::{AlertDescription, AlertLevel, ContentType, HandshakeType, ProtocolVersion,
    spec_alert_desc_byte, spec_alert_desc_of_byte, spec_alert_level_byte,
    spec_alert_level_of_byte, spec_hs_type_byte, spec_hs_type_of_byte, spec_type_byte,
    spec_type_of_byte, spec_version_of_u16, spec_version_u16, lemma_type_byte_round_trip,
    lemma_version_round_trip};
use crate::error::Error;

verus! {

/// Content type, version and 16-bit length.
pub const HEADER_SIZE: usize = 1 + 2 + 2;

/// The most payload bytes one record may declare: a 16 KiB protocol
/// payload plus a fixed allowance for ciphertext expansion.
pub const MAX_PAYLOAD: usize = 16384 + 2048;

/// Maximum on-wire size of one record.
pub const MAX_WIRE_SIZE: usize = MAX_PAYLOAD + HEADER_SIZE;

/// Why a byte buffer failed to parse as a record.
///
/// `TooShortForHeader` and `TooShortForLength` mark valid prefixes that
/// may become parseable once more bytes arrive; the other three are
/// permanently fatal.
#[derive(Clone, Copy, Debug, PartialEq, Eq, Structural)]
pub enum MessageError {
    TooShortForHeader,
    TooShortForLength,
    IllegalLength,
    IllegalContentType,
    IllegalProtocolVersion,
}

/// The backing store of a record payload.
///
/// This crate always owns its buffers, so the one variant wraps an owned
/// vector; decryption that rewrites a payload works over it in place.
#[derive(Debug)]
pub enum Buffer {
    Vec(Vec<u8>),
}

impl View for Buffer {
    type V = Seq<u8>;

    open spec fn view(&self) -> Seq<u8> {
        match self {
            Buffer::Vec(v) => v@,
        }
    }
}

impl Buffer {
    /// Keep only the first `new_len` bytes.
    pub(crate) fn truncate(&mut self, new_len: usize)
        ensures
            final(self)@ == if new_len <= old(self)@.len() {
                old(self)@.subrange(0, new_len as int)
            } else {
                old(self)@
            },
    {
        match self {
            Buffer::Vec(v) => v.truncate(new_len),
        }
    }

    /// How many bytes are stored.
    pub(crate) fn len(&self) -> (n: usize)
        ensures
            n == self@.len(),
    {
        match self {
            Buffer::Vec(v) => v.len(),
        }
    }
}

/// The ghost shape of one wire record.
pub struct SpecOpaque {
    pub typ: ContentType,
    pub version: ProtocolVersion,
    pub payload: Seq<u8>,
}

/// The declared payload length in a buffer that starts with a record header.
pub open spec fn spec_declared_len(s: Seq<u8>) -> int {
    spec_u16_of(s[3], s[4]) as int
}

/// What parsing one record from the front of `s` yields: the exact
/// mirror of [`OpaqueMessage::read`].
pub open spec fn spec_read(s: Seq<u8>) -> Result<SpecOpaque, MessageError> {
    if s.len() < 5 {
        Err(MessageError::TooShortForHeader)
    } else {
        let t = spec_type_of_byte(s[0]);
        let v = spec_version_of_u16(spec_u16_of(s[1], s[2]));
        let l = spec_declared_len(s);
        if l == 0 && t != ContentType::ApplicationData {
            Err(MessageError::IllegalLength)
        } else if l >= MAX_PAYLOAD {
            Err(MessageError::IllegalLength)
        } else if t is Unknown {
            Err(MessageError::IllegalContentType)
        } else if v matches ProtocolVersion::Unknown(x) && x / 256 != 3 {
            Err(MessageError::IllegalProtocolVersion)
        } else if s.len() < 5 + l {
            Err(MessageError::TooShortForLength)
        } else {
            Ok(SpecOpaque { typ: t, version: v, payload: s.subrange(5, 5 + l) })
        }
    }
}

/// The exact bytes of a record with the given type, version and payload.
pub open spec fn spec_record_wire(t: ContentType, v: ProtocolVersion, payload: Seq<u8>) -> Seq<
    u8,
> {
    seq![spec_type_byte(t)] + spec_u16_bytes(spec_version_u16(v)) + spec_u16_bytes(
        payload.len() as u16,
    ) + payload
}

/// Round-trip law: a buffer that parses as a record is reproduced, byte
/// for byte, by re-encoding what was parsed; the record occupies exactly
/// the first `HEADER_SIZE + payload` bytes.
pub proof fn lemma_record_round_trip(s: Seq<u8>)
    ensures
        match spec_read(s) {
            Ok(m) => spec_record_wire(m.typ, m.version, m.payload) == s.subrange(
                0,
                5 + m.payload.len() as int,
            ),
            Err(_) => true,
        },
{
    match spec_read(s) {
        Ok(m) => {
            let l = spec_declared_len(s);
            lemma_type_byte_round_trip(s[0]);
            lemma_version_round_trip(spec_u16_of(s[1], s[2]));
            lemma_u16_round_trip(s[1], s[2]);
            lemma_u16_round_trip(s[3], s[4]);
            assert(m.payload.len() == l);
            assert(spec_u16_bytes(m.payload.len() as u16) == seq![s[3], s[4]]);
            assert(spec_record_wire(m.typ, m.version, m.payload) =~= s.subrange(
                0,
                5 + m.payload.len() as int,
            ));
        },
        Err(_) => {},
    }
}

/// Incremental-delivery law: bytes that arrive after a record have no
/// bearing on it. Once a prefix parses as a record, any extension of
/// that prefix parses as the same record; and a permanently fatal
/// header error stays the same error however many bytes follow. Only
/// the two retry-later conditions can change as more bytes arrive, so
/// feeding a stream byte by byte and feeding it whole parse alike.
pub proof fn lemma_spec_read_extension(s: Seq<u8>, t: Seq<u8>)
    ensures
        spec_read(s) matches Ok(m) ==> spec_read(s + t) == spec_read(s),
        (spec_read(s) matches Err(e) && e != MessageError::TooShortForHeader && e
            != MessageError::TooShortForLength) ==> spec_read(s + t) == spec_read(s),
{
    if s.len() >= 5 {
        let u = s + t;
        assert(u[0] == s[0] && u[1] == s[1] && u[2] == s[2] && u[3] == s[3] && u[4] == s[4]);
        match spec_read(s) {
            Ok(m) => {
                let l = spec_declared_len(s);
                assert(u.subrange(5, 5 + l) =~= s.subrange(5, 5 + l));
                assert(spec_read(s + t) == spec_read(s));
            },
            Err(_) => {},
        }
    }
}

/// One wire record exactly as received; the payload may still be
/// ciphertext.
#[derive(Debug)]
pub struct OpaqueMessage {
    pub typ: ContentType,
    pub version: ProtocolVersion,
    pub payload: Buffer,
}

impl OpaqueMessage {
    /// Parse one record from the front of `buf`.
    ///
    /// The error tells retry-later conditions (`TooShortFor*`) apart from
    /// permanently invalid data; see [`spec_read`] for the exact rule.
    pub fn read(buf: &[u8]) -> (res: Result<OpaqueMessage, MessageError>)
        ensures
            match spec_read(buf@) {
                Ok(sm) => res matches Ok(m) && m.typ == sm.typ && m.version == sm.version
                    && m.payload@ == sm.payload,
                Err(e) => res matches Err(e2) && e2 == e,
            },
    {
        if buf.len() < 5 {
            return Err(MessageError::TooShortForHeader);
        }
        let typ = ContentType::from_byte(buf[0]);
        let version = ProtocolVersion::from_u16((buf[1] as u16) * 256 + (buf[2] as u16));
        let len: u16 = (buf[3] as u16) * 256 + (buf[4] as u16);

        // Reject zero-length records of every type but application data:
        // they serve no purpose and are a known attack surface.
        if len == 0 && !(typ == ContentType::ApplicationData) {
            return Err(MessageError::IllegalLength);
        }
        // Reject oversize records.
        if len as usize >= MAX_PAYLOAD {
            return Err(MessageError::IllegalLength);
        }
        // A record header must declare a recognized content type.
        if let ContentType::Unknown(_) = typ {
            return Err(MessageError::IllegalContentType);
        }
        // Accept only versions of the 0x03xx family.
        match version {
            ProtocolVersion::Unknown(x) => {
                if x / 256 != 3 {
                    return Err(MessageError::IllegalProtocolVersion);
                }
            },
            _ => {},
        }
        if buf.len() - 5 < len as usize {
            return Err(MessageError::TooShortForLength);
        }

        let end: usize = 5 + len as usize;
        let payload = bytes_of(&buf[5..end]);
        Ok(OpaqueMessage { typ, version, payload: Buffer::Vec(payload) })
    }

    /// The exact bytes this record came from, or goes out as.
    pub fn encode(self) -> (r: Vec<u8>)
        requires
            self.payload@.len() < 0x10000,
        ensures
            r@ == spec_record_wire(self.typ, self.version, self.payload@),
    {
        let mut buf: Vec<u8> = Vec::new();
        buf.push(self.typ.get_u8());
        put_u16(self.version.get_u16(), &mut buf);
        let Buffer::Vec(mut body) = self.payload;
        put_u16(body.len() as u16, &mut buf);
        buf.append(&mut body);
        proof {
            assert(buf@ =~= spec_record_wire(self.typ, self.version, self.payload@));
        }
        buf
    }

    /// Copy this record into an owned plaintext message; used only where
    /// no decryption is needed.
    pub fn to_plain_message(&self) -> (m: PlainMessage)
        ensures
            m.typ == self.typ,
            m.version == self.version,
            m.payload@ == self.payload@,
    {
        let body = match &self.payload {
            Buffer::Vec(v) => bytes_of(v.as_slice()),
        };
        PlainMessage { typ: self.typ, version: self.version, payload: Payload::new(body) }
    }

    /// An independent copy of this record.
    pub fn to_owned(&self) -> (m: OpaqueMessage)
        ensures
            m.typ == self.typ,
            m.version == self.version,
            m.payload@ == self.payload@,
    {
        let body = match &self.payload {
            Buffer::Vec(v) => bytes_of(v.as_slice()),
        };
        OpaqueMessage { typ: self.typ, version: self.version, payload: Buffer::Vec(body) }
    }

    /// How many wire bytes this record spans, header included.
    pub fn len(&self) -> (n: usize)
        requires
            self.payload@.len() + HEADER_SIZE <= usize::MAX,
        ensures
            n == HEADER_SIZE + self.payload@.len(),
    {
        HEADER_SIZE + self.payload.len()
    }
}

/// One decrypted record: always independent of any external buffer.
#[derive(Clone, Debug)]
pub struct PlainMessage {
    pub typ: ContentType,
    pub version: ProtocolVersion,
    pub payload: Payload,
}

impl PlainMessage {
    /// Wrap this plaintext in the opaque form without encrypting.
    pub fn into_unencrypted_opaque(self) -> (m: OpaqueMessage)
        ensures
            m.typ == self.typ,
            m.version == self.version,
            m.payload@ == self.payload@,
    {
        OpaqueMessage { typ: self.typ, version: self.version, payload: Buffer::Vec(self.payload.0) }
    }

    /// A message carrying a copy of this payload.
    pub fn borrow(&self) -> (m: BorrowedPlainMessage)
        ensures
            m.typ == self.typ,
            m.version == self.version,
            m.payload@ == self.payload@,
    {
        BorrowedPlainMessage {
            typ: self.typ,
            version: self.version,
            payload: bytes_of(self.payload.0.as_slice()),
        }
    }

    /// Re-encode a decoded message into its plaintext record form.
    pub fn from(msg: Message) -> (r: PlainMessage)
        ensures
            r.typ == spec_content_type(msg.payload),
            r.version == msg.version,
            r.payload@ == spec_payload_wire(msg.payload),
    {
        let typ = msg.payload.content_type();
        let payload = match msg.payload {
            MessagePayload::ApplicationData(p) => p.0,
            other => {
                let mut buf: Vec<u8> = Vec::new();
                other.encode(&mut buf);
                buf
            },
        };
        PlainMessage { typ, version: msg.version, payload: Payload::new(payload) }
    }
}

/// The bytes of an alert payload.
pub open spec fn spec_alert_wire(a: AlertMessagePayload) -> Seq<u8> {
    seq![spec_alert_level_byte(a.level), spec_alert_desc_byte(a.description)]
}

/// The two-byte body of an alert record.
#[derive(Clone, Copy, Debug, PartialEq, Eq, Structural)]
pub struct AlertMessagePayload {
    pub level: AlertLevel,
    pub description: AlertDescription,
}

impl AlertMessagePayload {
    /// Read level and description; fails if fewer than two bytes remain.
    pub fn read(r: &mut Reader) -> (res: Option<AlertMessagePayload>)
        requires
            old(r)@.wf(),
        ensures
            final(r)@.wf(),
            final(r)@.data == old(r)@.data,
            ({
                let rem = old(r)@.remaining();
                if rem.len() >= 2 {
                    res matches Some(a) && a.level == spec_alert_level_of_byte(rem[0])
                        && a.description == spec_alert_desc_of_byte(rem[1]) && final(r)@.pos
                        == old(r)@.pos + 2
                } else {
                    res is None
                }
            }),
    {
        let b0 = match r.take_byte() {
            Some(b) => b,
            None => { return None; },
        };
        let b1 = match r.take_byte() {
            Some(b) => b,
            None => { return None; },
        };
        Some(AlertMessagePayload {
            level: AlertLevel::from_byte(b0),
            description: AlertDescription::from_byte(b1),
        })
    }

    pub fn encode(&self, bytes: &mut Vec<u8>)
        ensures
            final(bytes)@ == old(bytes)@ + spec_alert_wire(*self),
    {
        bytes.push(self.level.get_u8());
        bytes.push(self.description.get_u8());
        proof {
            assert(final(bytes)@ =~= old(bytes)@ + spec_alert_wire(*self));
        }
    }
}

/// The one-byte body of a change-cipher-spec record. The byte's value is
/// not inspected on read; it is written as 1.
#[derive(Clone, Copy, Debug, PartialEq, Eq, Structural)]
pub struct ChangeCipherSpecPayload;

impl ChangeCipherSpecPayload {
    /// Consume the single body byte; fails if none remains.
    pub fn read(r: &mut Reader) -> (res: Option<ChangeCipherSpecPayload>)
        requires
            old(r)@.wf(),
        ensures
            final(r)@.wf(),
            final(r)@.data == old(r)@.data,
            if old(r)@.remaining().len() >= 1 {
                res is Some && final(r)@.pos == old(r)@.pos + 1
            } else {
                res is None
            },
    {
        match r.take_byte() {
            Some(_) => Some(ChangeCipherSpecPayload),
            None => None,
        }
    }

    pub fn encode(&self, bytes: &mut Vec<u8>)
        ensures
            final(bytes)@ == old(bytes)@ + seq![1u8],
    {
        bytes.push(1);
        proof {
            assert(final(bytes)@ =~= old(bytes)@ + seq![1u8]);
        }
    }
}

/// The bytes of a handshake message: kind, 3-byte length, body.
pub open spec fn spec_hs_wire(h: HandshakeMessagePayload) -> Seq<u8> {
    seq![spec_hs_type_byte(h.typ)] + spec_u24_bytes(h.payload@.len() as u32) + h.payload@
}

/// A handshake message: its kind and its body, kept verbatim. The body's
/// field grammar belongs to the layer above; here it is an opaque blob
/// delimited by the 3-byte length header.
#[derive(Clone, Debug)]
pub struct HandshakeMessagePayload {
    pub typ: HandshakeType,
    pub payload: Payload,
}

impl HandshakeMessagePayload {
    /// Read kind, length and exactly that many body bytes.
    pub fn read(r: &mut Reader) -> (res: Option<HandshakeMessagePayload>)
        requires
            old(r)@.wf(),
        ensures
            final(r)@.wf(),
            final(r)@.data == old(r)@.data,
            ({
                let rem = old(r)@.remaining();
                if rem.len() >= 4 && 4 + spec_u24_of(rem[1], rem[2], rem[3]) <= rem.len() {
                    let n = spec_u24_of(rem[1], rem[2], rem[3]) as int;
                    res matches Some(h) && h.typ == spec_hs_type_of_byte(rem[0]) && h.payload@
                        == rem.subrange(4, 4 + n) && final(r)@.pos == old(r)@.pos + 4 + n
                } else {
                    res is None
                }
            }),
    {
        let b0 = match r.take_byte() {
            Some(b) => b,
            None => { return None; },
        };
        let b1 = match r.take_byte() {
            Some(b) => b,
            None => { return None; },
        };
        let b2 = match r.take_byte() {
            Some(b) => b,
            None => { return None; },
        };
        let b3 = match r.take_byte() {
            Some(b) => b,
            None => { return None; },
        };
        let n: u32 = (b1 as u32) * 65536 + (b2 as u32) * 256 + (b3 as u32);
        let body = match r.take(n as usize) {
            Some(v) => v,
            None => { return None; },
        };
        Some(HandshakeMessagePayload { typ: HandshakeType::from_byte(b0), payload: Payload(body) })
    }

    /// The exact wire bytes of this handshake message.
    pub fn get_encoding(&self) -> (r: Vec<u8>)
        requires
            self.payload@.len() < 0x1000000,
        ensures
            r@ == spec_hs_wire(*self),
    {
        let mut buf: Vec<u8> = Vec::new();
        buf.push(self.typ.get_u8());
        put_u24(self.payload.0.len() as u32, &mut buf);
        let mut body = bytes_of(self.payload.0.as_slice());
        buf.append(&mut body);
        proof {
            assert(buf@ =~= spec_hs_wire(*self));
        }
        buf
    }

    /// The key-update request that asks the peer for nothing in return.
    pub fn build_key_update_notify() -> (h: HandshakeMessagePayload)
        ensures
            h.typ == HandshakeType::KeyUpdate,
            h.payload@ == seq![0u8],
    {
        let mut body: Vec<u8> = Vec::new();
        body.push(0);
        proof {
            assert(body@ =~= seq![0u8]);
        }
        HandshakeMessagePayload { typ: HandshakeType::KeyUpdate, payload: Payload(body) }
    }
}

/// A fully decoded message payload.
#[derive(Debug)]
pub enum MessagePayload {
    Alert(AlertMessagePayload),
    Handshake { parsed: HandshakeMessagePayload, encoded: Payload },
    ChangeCipherSpec(ChangeCipherSpecPayload),
    ApplicationData(Payload),
}

/// The content type a decoded payload answers to.
pub open spec fn spec_content_type(p: MessagePayload) -> ContentType {
    match p {
        MessagePayload::Alert(_) => ContentType::Alert,
        MessagePayload::Handshake { .. } => ContentType::Handshake,
        MessagePayload::ChangeCipherSpec(_) => ContentType::ChangeCipherSpec,
        MessagePayload::ApplicationData(_) => ContentType::ApplicationData,
    }
}

/// The bytes a decoded payload re-encodes to.
pub open spec fn spec_payload_wire(p: MessagePayload) -> Seq<u8> {
    match p {
        MessagePayload::Alert(a) => spec_alert_wire(a),
        MessagePayload::Handshake { parsed: _, encoded } => encoded@,
        MessagePayload::ChangeCipherSpec(_) => seq![1u8],
        MessagePayload::ApplicationData(pl) => pl@,
    }
}

/// Whether `p` decodes as a payload of type `typ`: every byte must be
/// consumed, and nothing may be missing.
pub open spec fn spec_decodes(typ: ContentType, p: Seq<u8>) -> bool {
    match typ {
        ContentType::ApplicationData => true,
        ContentType::Alert => p.len() == 2,
        ContentType::Handshake => p.len() >= 4 && p.len() == 4 + spec_u24_of(p[1], p[2], p[3]),
        ContentType::ChangeCipherSpec => p.len() == 1,
        ContentType::Unknown(_) => false,
    }
}

/// What the decoded payload of type `typ` parsed from bytes `p` holds.
pub open spec fn spec_payload_matches(mp: MessagePayload, typ: ContentType, p: Seq<u8>) -> bool {
    match typ {
        ContentType::ApplicationData => mp matches MessagePayload::ApplicationData(q) && q@ == p,
        ContentType::Alert => mp matches MessagePayload::Alert(a) && a.level
            == spec_alert_level_of_byte(p[0]) && a.description == spec_alert_desc_of_byte(p[1]),
        ContentType::Handshake => mp matches MessagePayload::Handshake { parsed, encoded }
            && parsed.typ == spec_hs_type_of_byte(p[0]) && parsed.payload@ == p.skip(4) && encoded@
            == p,
        ContentType::ChangeCipherSpec => mp is ChangeCipherSpec,
        ContentType::Unknown(_) => false,
    }
}

impl MessagePayload {
    /// Append the wire bytes of this payload.
    pub fn encode(&self, bytes: &mut Vec<u8>)
        ensures
            final(bytes)@ == old(bytes)@ + spec_payload_wire(*self),
    {
        match self {
            MessagePayload::Alert(a) => a.encode(bytes),
            MessagePayload::Handshake { parsed: _, encoded } => encoded.encode(bytes),
            MessagePayload::ChangeCipherSpec(c) => c.encode(bytes),
            MessagePayload::ApplicationData(p) => p.encode(bytes),
        }
    }

    /// Wrap a handshake message, retaining its verbatim encoding for
    /// transcript hashing.
    pub fn handshake(parsed: HandshakeMessagePayload) -> (mp: MessagePayload)
        requires
            parsed.payload@.len() < 0x1000000,
        ensures
            mp matches MessagePayload::Handshake { parsed: p2, encoded } && p2 == parsed
                && encoded@ == spec_hs_wire(parsed),
    {
        let encoded = Payload::new(parsed.get_encoding());
        MessagePayload::Handshake { parsed, encoded }
    }

    /// Decode a plaintext payload of the given content type. Decoding
    /// must consume the whole payload exactly; trailing or missing bytes
    /// fail with a corruption error carrying the offending type.
    pub fn new(typ: ContentType, vers: ProtocolVersion, payload: Payload) -> (r: Result<
        MessagePayload,
        Error,
    >)
        ensures
            spec_decodes(typ, payload@) ==> (r matches Ok(mp) && spec_payload_matches(
                mp,
                typ,
                payload@,
            )),
            !spec_decodes(typ, payload@) ==> (r matches Err(e) && e
                == Error::CorruptMessagePayload(typ)),
    {
        let _ = vers;
        match typ {
            ContentType::ApplicationData => Ok(MessagePayload::ApplicationData(payload)),
            ContentType::Alert => {
                let mut rd = Reader::init(bytes_of(payload.0.as_slice()));
                proof {
                    assert(rd@.remaining() =~= payload@);
                }
                match AlertMessagePayload::read(&mut rd) {
                    Some(a) => {
                        if !rd.any_left() {
                            Ok(MessagePayload::Alert(a))
                        } else {
                            Err(Error::CorruptMessagePayload(typ))
                        }
                    },
                    None => Err(Error::CorruptMessagePayload(typ)),
                }
            },
            ContentType::Handshake => {
                let mut rd = Reader::init(bytes_of(payload.0.as_slice()));
                proof {
                    assert(rd@.remaining() =~= payload@);
                }
                match HandshakeMessagePayload::read(&mut rd) {
                    Some(parsed) => {
                        if !rd.any_left() {
                            proof {
                                assert(payload@.skip(4) =~= payload@.subrange(
                                    4,
                                    payload@.len() as int,
                                ));
                            }
                            Ok(MessagePayload::Handshake { parsed, encoded: payload })
                        } else {
                            Err(Error::CorruptMessagePayload(typ))
                        }
                    },
                    None => Err(Error::CorruptMessagePayload(typ)),
                }
            },
            ContentType::ChangeCipherSpec => {
                let mut rd = Reader::init(bytes_of(payload.0.as_slice()));
                proof {
                    assert(rd@.remaining() =~= payload@);
                }
                match ChangeCipherSpecPayload::read(&mut rd) {
                    Some(c) => {
                        if !rd.any_left() {
                            Ok(MessagePayload::ChangeCipherSpec(c))
                        } else {
                            Err(Error::CorruptMessagePayload(typ))
                        }
                    },
                    None => Err(Error::CorruptMessagePayload(typ)),
                }
            },
            ContentType::Unknown(_) => Err(Error::CorruptMessagePayload(typ)),
        }
    }

    /// The content type this payload answers to.
    pub fn content_type(&self) -> (t: ContentType)
        ensures
            t == spec_content_type(*self),
    {
        match self {
            MessagePayload::Alert(_) => ContentType::Alert,
            MessagePayload::Handshake { .. } => ContentType::Handshake,
            MessagePayload::ChangeCipherSpec(_) => ContentType::ChangeCipherSpec,
            MessagePayload::ApplicationData(_) => ContentType::ApplicationData,
        }
    }
}

/// A message with a fully decoded payload.
#[derive(Debug)]
pub struct Message {
    pub version: ProtocolVersion,
    pub payload: MessagePayload,
}

impl Message {
    /// Whether this is a handshake message of the given kind.
    pub fn is_handshake_type(&self, hstyp: HandshakeType) -> (r: bool)
        ensures
            r == (self.payload matches MessagePayload::Handshake { parsed, .. } && parsed.typ
                == hstyp),
    {
        match &self.payload {
            MessagePayload::Handshake { parsed, .. } => parsed.typ == hstyp,
            _ => false,
        }
    }

    /// An alert message with the given level and reason.
    pub fn build_alert(level: AlertLevel, desc: AlertDescription) -> (m: Message)
        ensures
            m.version == ProtocolVersion::TLSv1_2,
            m.payload matches MessagePayload::Alert(a) && a.level == level && a.description
                == desc,
    {
        Message {
            version: ProtocolVersion::TLSv1_2,
            payload: MessagePayload::Alert(AlertMessagePayload { level, description: desc }),
        }
    }

    /// The key-update notification used after rekeying.
    pub fn build_key_update_notify() -> (m: Message)
        ensures
            m.version == ProtocolVersion::TLSv1_3,
            m.payload matches MessagePayload::Handshake { parsed, encoded } && parsed.typ
                == HandshakeType::KeyUpdate && parsed.payload@ == seq![0u8] && encoded@
                == spec_hs_wire(parsed),
    {
        Message {
            version: ProtocolVersion::TLSv1_3,
            payload: MessagePayload::handshake(HandshakeMessagePayload::build_key_update_notify()),
        }
    }

    /// Decode a plaintext message into its typed form; decoding must
    /// consume the whole payload exactly.
    pub fn try_from(plain: PlainMessage) -> (r: Result<Message, Error>)
        ensures
            spec_decodes(plain.typ, plain.payload@) ==> (r matches Ok(m) && m.version
                == plain.version && spec_payload_matches(m.payload, plain.typ, plain.payload@)),
            !spec_decodes(plain.typ, plain.payload@) ==> (r matches Err(e) && e
                == Error::CorruptMessagePayload(plain.typ)),
    {
        match MessagePayload::new(plain.typ, plain.version, plain.payload) {
            Ok(payload) => Ok(Message { version: plain.version, payload }),
            Err(e) => Err(e),
        }
    }
}

/// A plain message whose payload bytes were copied out of another owner;
/// useful when a caller holds the payload apart from its framing.
#[derive(Debug)]
pub struct BorrowedPlainMessage {
    pub typ: ContentType,
    pub version: ProtocolVersion,
    pub payload: Vec<u8>,
}

impl BorrowedPlainMessage {
    /// Wrap the copied payload in the opaque form without encrypting.
    pub fn to_unencrypted_opaque(&self) -> (m: OpaqueMessage)
        ensures
            m.typ == self.typ,
            m.version == self.version,
            m.payload@ == self.payload@,
    {
        OpaqueMessage {
            typ: self.typ,
            version: self.version,
            payload: Buffer::Vec(bytes_of(self.payload.as_slice())),
        }
    }
}

} // verus!
