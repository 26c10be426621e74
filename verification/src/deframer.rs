//! The message deframer: a stateful engine that turns an arbitrarily
//! chunked byte stream into whole plaintext messages, reassembling
//! handshake messages split across records and holding buffering to a
//! fixed ceiling.

use vstd::prelude::*;

use crate::base::Payload;
use crate::codec::spec_u24_of;
use crate::enums::{ContentType, ProtocolVersion};
use crate::error::{Error, SourceError};
use crate::message::{spec_read, MessageError, OpaqueMessage, PlainMessage, MAX_WIRE_SIZE};
use crate::record_layer::RecordDecrypter;

verus! {

/// Handshake-message kind plus 3-byte length.
pub const HEADER_SIZE: usize = 1 + 3;

/// TLS allows handshake messages of up to 16 MiB; this engine restricts
/// them to 64 KiB to limit the potential for denial of service.
pub const MAX_HANDSHAKE_SIZE: usize = 0xffff;

/// Buffer capacity grows in increments of this many bytes.
pub const READ_SIZE: usize = 4096;

/// A source of transport bytes; the deframer pulls from one in `read`.
///
/// `read_chunk` hands back at most `max` bytes, or fails without any
/// promise about a later attempt. An implementation that returns more
/// than `max` bytes sees the excess ignored.
pub trait ByteSource {
    fn read_chunk(&mut self, max: usize) -> Result<Vec<u8>, SourceError>;
}

/// The ghost state of an in-progress handshake reassembly.
pub struct JoinModel {
    /// The handshake payload bytes gathered so far.
    pub payload: Seq<u8>,
    /// The protocol version of the first contributing record.
    pub version: ProtocolVersion,
    /// Handshake header size plus declared body length, once the 4-byte
    /// header has been seen.
    pub expected: Option<int>,
    /// Whether this reassembly is fed by `push` rather than by records.
    pub direct: bool,
}

/// The ghost state of a [`MessageDeframer`].
pub struct DeframerModel {
    /// Once set, every later `pop` fails with the same corruption error.
    pub desynced: bool,
    /// Record bytes received but not yet consumed.
    pub buffered: Seq<u8>,
    /// The in-progress handshake reassembly, if any.
    pub joining: Option<JoinModel>,
    /// The allocation ceiling the buffer was last prepared to.
    pub cap: int,
}

/// Payload bytes held by the reassembly, if one is active.
pub open spec fn spec_acc_len(m: DeframerModel) -> int {
    match m.joining {
        Some(j) => j.payload.len() as int,
        None => 0,
    }
}

/// All bytes the deframer is holding.
pub open spec fn spec_total(m: DeframerModel) -> int {
    m.buffered.len() + spec_acc_len(m)
}

/// The buffering ceiling in force: the handshake limit while a
/// reassembly is active, one record's wire size otherwise.
pub open spec fn spec_allow_max(m: DeframerModel) -> int {
    if m.joining is Some {
        MAX_HANDSHAKE_SIZE as int
    } else {
        MAX_WIRE_SIZE as int
    }
}

/// Whether a reassembly has gathered at least its declared length.
pub open spec fn spec_join_complete(j: JoinModel) -> bool {
    match j.expected {
        Some(l) => l <= j.payload.len(),
        None => false,
    }
}

/// Whether `pop` would scan the buffer for a record: nothing is
/// complete, and the reassembly (if any) is fed from the wire.
pub open spec fn spec_scanning(m: DeframerModel) -> bool {
    &&& !m.desynced
    &&& match m.joining {
        None => true,
        Some(j) => !spec_join_complete(j) && !j.direct,
    }
}

/// What the length header at the front of a gathering handshake payload
/// declares: too few bytes to tell, a size over the accepted maximum, or
/// header-plus-body length.
pub open spec fn spec_payload_size(s: Seq<u8>) -> Result<Option<int>, Error> {
    if s.len() < HEADER_SIZE {
        Ok(None)
    } else if spec_u24_of(s[1], s[2], s[3]) > MAX_HANDSHAKE_SIZE {
        Err(Error::CorruptMessagePayload(ContentType::Handshake))
    } else {
        Ok(Some(HEADER_SIZE + spec_u24_of(s[1], s[2], s[3]) as int))
    }
}

/// Determine the expected length of a handshake message from the header
/// at the front of `buf`: the exact mirror of [`spec_payload_size`].
pub fn payload_size(buf: &[u8]) -> (r: Result<Option<usize>, Error>)
    ensures
        match spec_payload_size(buf@) {
            Ok(o) => r matches Ok(o2) && (match o {
                Some(n) => o2 matches Some(u) && u == n,
                None => o2 is None,
            }),
            Err(e) => r matches Err(e2) && e2 == e,
        },
{
    if buf.len() < HEADER_SIZE {
        return Ok(None);
    }
    let n: u32 = (buf[1] as u32) * 65536 + (buf[2] as u32) * 256 + (buf[3] as u32);
    if n > 65535 {
        return Err(Error::CorruptMessagePayload(ContentType::Handshake));
    }
    Ok(Some(HEADER_SIZE + n as usize))
}

/// One message produced by `pop`, with the flags its caller needs.
#[derive(Debug)]
pub struct Deframed {
    /// Whether the peer asked for the connection to close before this
    /// message is used.
    pub want_close_before_decrypt: bool,
    /// Whether the buffer stood at a clean record boundary afterwards.
    pub aligned: bool,
    /// Whether this message went through the record-protection step.
    pub trial_decryption_finished: bool,
    pub message: PlainMessage,
}

/// The one failure the framing-bypass ingress can report about a
/// directly injected handshake payload.
#[derive(Clone, Copy, Debug, PartialEq, Eq, Structural)]
pub enum DeframerError {
    HandshakePayloadSizeTooLarge,
}

/// What a [`Deframed`] carries, field by field.
pub open spec fn spec_deframed_is(
    d: Deframed,
    aligned: bool,
    trial: bool,
    typ: ContentType,
    version: ProtocolVersion,
    payload: Seq<u8>,
) -> bool {
    &&& d.want_close_before_decrypt == false
    &&& d.aligned == aligned
    &&& d.trial_decryption_finished == trial
    &&& d.message.typ == typ
    &&& d.message.version == version
    &&& d.message.payload@ == payload
}

/// While a handshake reassembly is active, nothing but a handshake
/// message carrying the reassembly's own version is ever emitted: a
/// fragmented handshake message is never interleaved with records of
/// any other kind, and no partial reassembly leaves the deframer.
pub open spec fn spec_joining_emit(pre: DeframerModel, r: Result<Option<Deframed>, Error>) -> bool {
    match pre.joining {
        Some(j) => match r {
            Ok(Some(d)) => d.message.typ == ContentType::Handshake && d.message.version
                == j.version,
            _ => true,
        },
        None => true,
    }
}

/// What `pop` does when a completed reassembly is ready: yield exactly
/// the declared number of payload bytes as one handshake message; keep
/// any surplus as the start of the next reassembly and re-derive its
/// declared length, desynchronizing if that length is oversize.
pub open spec fn spec_extract_post(
    pre: DeframerModel,
    r: Result<Option<Deframed>, Error>,
    post: DeframerModel,
) -> bool {
    match pre.joining {
        Some(j) => {
            let len = match j.expected {
                Some(l) => l,
                None => 0,
            };
            let taken = j.payload.subrange(0, len);
            let rest = j.payload.skip(len);
            &&& post.buffered == pre.buffered
            &&& post.cap == pre.cap
            &&& if rest.len() == 0 {
                &&& r matches Ok(s) && s matches Some(d) && spec_deframed_is(
                    d,
                    true,
                    true,
                    ContentType::Handshake,
                    j.version,
                    taken,
                )
                &&& post.joining is None
                &&& post.desynced == pre.desynced
            } else {
                match spec_payload_size(rest) {
                    Ok(exp2) => {
                        &&& r matches Ok(s) && s matches Some(d) && spec_deframed_is(
                            d,
                            false,
                            true,
                            ContentType::Handshake,
                            j.version,
                            taken,
                        )
                        &&& post.joining matches Some(j2) && j2.payload == rest && j2.version
                            == j.version && j2.expected == exp2 && j2.direct == j.direct
                        &&& post.desynced == pre.desynced
                    },
                    Err(e) => {
                        &&& r matches Err(e2) && e2 == e
                        &&& post.desynced == true
                        &&& post.joining matches Some(j2) && j2.payload == rest && j2.version
                            == j.version && j2.direct == j.direct
                    },
                }
            }
        },
        None => true,
    }
}

/// What `pop` does when it scans the buffer and the front either fails
/// to parse, or parses as the unencrypted change-cipher-spec record that
/// is emitted without consulting the decrypter.
pub open spec fn spec_scan_post(
    pre: DeframerModel,
    r: Result<Option<Deframed>, Error>,
    post: DeframerModel,
) -> bool {
    match spec_read(pre.buffered) {
        Err(e) => {
            if e == MessageError::TooShortForHeader || e == MessageError::TooShortForLength {
                // A valid prefix: not an error, wait for more bytes.
                &&& r matches Ok(s) && s is None
                &&& post == pre
            } else {
                // Malformed framing: desynchronize permanently.
                &&& r matches Err(e2) && e2 == Error::CorruptMessage
                &&& post == DeframerModel { desynced: true, ..pre }
            }
        },
        Ok(m0) => {
            if m0.typ == ContentType::ChangeCipherSpec && pre.joining is None {
                // Sent unencrypted by protocol rule: emitted immediately.
                &&& r matches Ok(s) && s matches Some(d) && spec_deframed_is(
                    d,
                    true,
                    false,
                    ContentType::ChangeCipherSpec,
                    m0.version,
                    m0.payload,
                )
                &&& post == DeframerModel {
                    buffered: pre.buffered.skip(5 + m0.payload.len() as int),
                    ..pre
                }
            } else {
                // What follows depends on the record-protection step.
                true
            }
        },
    }
}

/// What `push` does: refuse to mix with unrelated buffered records,
/// enforce the ceiling, then gather the bytes into the direct-fed
/// reassembly, deriving the declared length as soon as the 4-byte
/// handshake header is available and desynchronizing if it is oversize.
pub open spec fn spec_push_post(
    pre: DeframerModel,
    version: ProtocolVersion,
    payload: Seq<u8>,
    r: Result<(), Error>,
    post: DeframerModel,
) -> bool {
    if pre.buffered.len() > 0 && pre.joining is None {
        &&& r matches Err(e) && e == Error::InvalidPush
        &&& post == pre
    } else if spec_total(pre) >= spec_allow_max(pre) {
        &&& r matches Err(e) && e == Error::BufferFull
        &&& post == pre
    } else if spec_total(pre) + payload.len() > MAX_HANDSHAKE_SIZE as int {
        &&& r matches Err(e) && e == Error::BufferFull
        &&& post.buffered == pre.buffered
        &&& post.joining == pre.joining
        &&& post.desynced == pre.desynced
    } else {
        &&& post.buffered == pre.buffered
        &&& match pre.joining {
            None => match spec_payload_size(payload) {
                Err(e) => {
                    &&& r matches Err(e2) && e2 == e
                    &&& post.joining is None
                    &&& post.desynced == true
                },
                Ok(exp) => {
                    &&& r is Ok
                    &&& post.joining matches Some(j2) && j2 == (JoinModel {
                        payload: payload,
                        version: version,
                        expected: exp,
                        direct: true,
                    })
                    &&& post.desynced == pre.desynced
                },
            },
            Some(j) => {
                let combined = j.payload + payload;
                match j.expected {
                    Some(l) => {
                        &&& r is Ok
                        &&& post.joining matches Some(j2) && j2 == (JoinModel {
                            payload: combined,
                            version: j.version,
                            expected: Some(l),
                            direct: j.direct,
                        })
                        &&& post.desynced == pre.desynced
                    },
                    None => match spec_payload_size(combined) {
                        Err(e) => {
                            &&& r matches Err(e2) && e2 == e
                            &&& post.joining matches Some(j2) && j2 == (JoinModel {
                                payload: combined,
                                version: j.version,
                                expected: None,
                                direct: j.direct,
                            })
                            &&& post.desynced == true
                        },
                        Ok(exp) => {
                            &&& r is Ok
                            &&& post.joining matches Some(j2) && j2 == (JoinModel {
                                payload: combined,
                                version: j.version,
                                expected: exp,
                                direct: j.direct,
                            })
                            &&& post.desynced == pre.desynced
                        },
                    },
                }
            },
        }
    }
}

/// What folding one decrypted handshake record into the reassembly
/// does: append its payload, start a reassembly if none is active, and
/// derive the declared length as soon as the 4-byte header is there,
/// desynchronizing if it is oversize.
pub open spec fn spec_fold_post(
    pre: DeframerModel,
    msg: PlainMessage,
    r: Result<(), Error>,
    post: DeframerModel,
) -> bool {
    match pre.joining {
        None => match spec_payload_size(msg.payload@) {
            Err(e) => {
                &&& r matches Err(e2) && e2 == e
                &&& post.joining is None
                &&& post.desynced == true
            },
            Ok(exp) => {
                &&& r is Ok
                &&& post.joining matches Some(j2) && j2 == (JoinModel {
                    payload: msg.payload@,
                    version: msg.version,
                    expected: exp,
                    direct: false,
                })
                &&& post.desynced == pre.desynced
            },
        },
        Some(j) => {
            let combined = j.payload + msg.payload@;
            match j.expected {
                Some(l) => {
                    &&& r is Ok
                    &&& post.joining matches Some(j2) && j2 == (JoinModel {
                        payload: combined,
                        version: j.version,
                        expected: Some(l),
                        direct: j.direct,
                    })
                    &&& post.desynced == pre.desynced
                },
                None => match spec_payload_size(combined) {
                    Err(e) => {
                        &&& r matches Err(e2) && e2 == e
                        &&& post.joining matches Some(j2) && j2 == (JoinModel {
                            payload: combined,
                            version: j.version,
                            expected: None,
                            direct: j.direct,
                        })
                        &&& post.desynced == true
                    },
                    Ok(exp) => {
                        &&& r is Ok
                        &&& post.joining matches Some(j2) && j2 == (JoinModel {
                            payload: combined,
                            version: j.version,
                            expected: exp,
                            direct: j.direct,
                        })
                        &&& post.desynced == pre.desynced
                    },
                },
            }
        },
    }
}

/// The reassembly state after one decrypted handshake record is
/// folded in: its payload is appended (a fresh reassembly starts with
/// the record's own version), and the declared length is derived from
/// the 4-byte header as soon as it is there, failing if it is oversize.
pub open spec fn spec_folded(pre_join: Option<JoinModel>, m: PlainMessage) -> Result<
    JoinModel,
    Error,
> {
    match pre_join {
        None => match spec_payload_size(m.payload@) {
            Ok(exp) => Ok(
                JoinModel { payload: m.payload@, version: m.version, expected: exp, direct: false },
            ),
            Err(e) => Err(e),
        },
        Some(j) => {
            let combined = j.payload + m.payload@;
            match j.expected {
                Some(l) => Ok(
                    JoinModel {
                        payload: combined,
                        version: j.version,
                        expected: Some(l),
                        direct: j.direct,
                    },
                ),
                None => match spec_payload_size(combined) {
                    Ok(exp) => Ok(
                        JoinModel {
                            payload: combined,
                            version: j.version,
                            expected: exp,
                            direct: j.direct,
                        },
                    ),
                    Err(e) => Err(e),
                },
            }
        },
    }
}

/// What one outcome of the record-protection step does to the deframer,
/// for the record spanning the first `end` buffered bytes. A rejected
/// record is skipped outside a reassembly and is a fatal interleaving
/// inside one; a plaintext record of any other type is the emitted
/// result outside a reassembly and a fatal interleaving inside one; a
/// handshake record is consumed and folded, and extracted at once if
/// that completes the reassembly. A handshake plaintext longer than the
/// record it came from is refused as a decryption failure: genuine
/// record protection never expands a record.
pub open spec fn spec_accept_post(
    pre: DeframerModel,
    end: int,
    outcome: Option<PlainMessage>,
    r: Result<Option<Deframed>, Error>,
    post: DeframerModel,
) -> bool {
    match outcome {
        None => match pre.joining {
            Some(_) => {
                &&& r matches Err(e) && e == Error::PeerMisbehaved
                &&& post == (DeframerModel { desynced: true, ..pre })
            },
            None => {
                &&& r matches Ok(s) && s is None
                &&& post == (DeframerModel { buffered: pre.buffered.skip(end), ..pre })
            },
        },
        Some(m) => {
            if !(m.typ == ContentType::Handshake) {
                match pre.joining {
                    Some(_) => {
                        &&& r matches Err(e) && e == Error::PeerMisbehaved
                        &&& post == (DeframerModel { desynced: true, ..pre })
                    },
                    None => {
                        &&& r matches Ok(s) && s matches Some(d) && d.message == m && d.aligned
                            && !d.trial_decryption_finished && !d.want_close_before_decrypt
                        &&& post == (DeframerModel { buffered: pre.buffered.skip(end), ..pre })
                    },
                }
            } else if m.payload@.len() > end - 5 {
                &&& r matches Err(e) && e == Error::DecryptError
                &&& post == pre
            } else {
                match spec_folded(pre.joining, m) {
                    Err(e) => {
                        &&& r matches Err(e2) && e2 == e
                        &&& post.desynced == true
                        &&& post.buffered == pre.buffered.skip(end)
                        &&& post.cap == pre.cap
                        &&& match pre.joining {
                            None => post.joining is None,
                            Some(j) => post.joining matches Some(j2) && j2.payload == j.payload
                                + m.payload@ && j2.version == j.version && j2.direct == j.direct
                                && j2.expected is None,
                        }
                    },
                    Ok(j2) => {
                        let mid = DeframerModel {
                            desynced: pre.desynced,
                            buffered: pre.buffered.skip(end),
                            joining: Some(j2),
                            cap: pre.cap,
                        };
                        if spec_join_complete(j2) {
                            spec_extract_post(mid, r, post)
                        } else {
                            &&& r matches Ok(s) && s is None
                            &&& post == mid
                        }
                    },
                }
            }
        },
    }
}

proof fn lemma_skip_zero(s: Seq<u8>)
    ensures
        s.skip(0) == s,
{
    assert(s.skip(0) =~= s);
}

proof fn lemma_skip_skip(s: Seq<u8>, a: int, b: int)
    requires
        0 <= a,
        0 <= b,
        a + b <= s.len(),
    ensures
        s.skip(a).skip(b) == s.skip(a + b),
{
    assert(s.skip(a).skip(b) =~= s.skip(a + b));
}

/// An in-progress reassembly of one handshake message from records.
struct HandshakePayloadMeta {
    /// The payload bytes gathered so far.
    payload: Vec<u8>,
    /// The protocol version seen on the first contributing record.
    version: ProtocolVersion,
    /// Handshake header size plus declared body length, if known yet.
    expected_len: Option<usize>,
    /// True when fed through `push` instead of from parsed records.
    quic: bool,
}

spec fn meta_view(m: HandshakePayloadMeta) -> JoinModel {
    JoinModel {
        payload: m.payload@,
        version: m.version,
        expected: match m.expected_len {
            Some(u) => Some(u as int),
            None => None,
        },
        direct: m.quic,
    }
}

/// Reconstructs whole messages from a stream of arbitrary-sized reads.
///
/// Bytes arrive through `read` (or, for an externally framed transport,
/// through `push`) and whole plaintext messages leave through `pop`.
pub struct MessageDeframer {
    /// Set when the peer's bytes stopped being a valid record stream;
    /// the deframer cannot recover and the caller should abort.
    desynced: bool,
    /// Record bytes received but not yet consumed.
    buf: Vec<u8>,
    /// The in-progress handshake reassembly, if any.
    joining_hs: Option<HandshakePayloadMeta>,
    /// The allocation ceiling the buffer was last prepared to.
    cap: usize,
}

impl View for MessageDeframer {
    type V = DeframerModel;

    closed spec fn view(&self) -> DeframerModel {
        DeframerModel {
            desynced: self.desynced,
            buffered: self.buf@,
            joining: match self.joining_hs {
                Some(m) => Some(meta_view(m)),
                None => None,
            },
            cap: self.cap as int,
        }
    }
}

impl Default for MessageDeframer {
    /// A deframer holding nothing at all.
    fn default() -> (d: MessageDeframer)
        ensures
            d@ == (DeframerModel {
                desynced: false,
                buffered: Seq::<u8>::empty(),
                joining: None,
                cap: 0,
            }),
    {
        let d = MessageDeframer { desynced: false, buf: Vec::new(), joining_hs: None, cap: 0 };
        proof {
            assert(d@.buffered =~= Seq::<u8>::empty());
        }
        d
    }
}

impl MessageDeframer {
    /// Whether anything is buffered: undecoded record bytes, or a
    /// partial handshake reassembly.
    pub fn has_pending(&self) -> (b: bool)
        ensures
            b == (self@.buffered.len() > 0 || self@.joining is Some),
    {
        self.buf.len() > 0 || self.joining_hs.is_some()
    }

    /// How many undecoded record bytes are buffered.
    pub fn bytes_buffered(&self) -> (n: usize)
        ensures
            n == self@.buffered.len(),
    {
        self.buf.len()
    }

    /// Whether a permanent corruption has desynchronized this deframer.
    pub fn is_desynced(&self) -> (b: bool)
        ensures
            b == self@.desynced,
    {
        self.desynced
    }

    /// Drop the first `taken` bytes of the buffer.
    fn discard(&mut self, taken: usize)
        requires
            taken <= old(self)@.buffered.len(),
        ensures
            final(self)@.buffered == old(self)@.buffered.skip(taken as int),
            final(self)@.desynced == old(self)@.desynced,
            final(self)@.joining == old(self)@.joining,
            final(self)@.cap == old(self)@.cap,
    {
        let rest = self.buf.split_off(taken);
        self.buf = rest;
        proof {
            assert(self.buf@ =~= old(self)@.buffered.skip(taken as int));
        }
    }

    /// Enforce the buffering ceiling and pick the capacity for the next
    /// read: grow in 4 KiB steps up to the ceiling in force, and shrink
    /// back once a large handshake flight has been consumed.
    fn prepare_read(&mut self) -> (r: Result<(), Error>)
        ensures
            final(self)@.buffered == old(self)@.buffered,
            final(self)@.joining == old(self)@.joining,
            final(self)@.desynced == old(self)@.desynced,
            ({
                let total = spec_total(old(self)@);
                let amax = spec_allow_max(old(self)@);
                let need = if total + READ_SIZE <= amax {
                    total + READ_SIZE
                } else {
                    amax
                };
                if total >= amax {
                    &&& r matches Err(e) && e == Error::BufferFull
                    &&& final(self)@.cap == old(self)@.cap
                } else {
                    &&& r is Ok
                    &&& final(self)@.cap == if need > old(self)@.cap {
                        need
                    } else if old(self)@.cap > amax {
                        need
                    } else {
                        old(self)@.cap
                    }
                    &&& total < final(self)@.cap <= MAX_HANDSHAKE_SIZE as int
                }
            }),
    {
        let allow_max: usize = if self.joining_hs.is_some() {
            MAX_HANDSHAKE_SIZE
        } else {
            MAX_WIRE_SIZE
        };
        let blen = self.buf.len();
        let acc_len: usize = match &self.joining_hs {
            Some(meta) => meta.payload.len(),
            None => 0,
        };
        if acc_len >= allow_max || blen >= allow_max - acc_len {
            return Err(Error::BufferFull);
        }
        let total = blen + acc_len;
        let need: usize = if total + READ_SIZE <= allow_max {
            total + READ_SIZE
        } else {
            allow_max
        };
        if need > self.cap {
            self.cap = need;
        } else if self.cap > allow_max {
            self.cap = need;
        }
        Ok(())
    }

    /// Pull bytes from `rd` into the buffer, up to the room the ceiling
    /// allows.
    ///
    /// A full buffer fails with `BufferFull`, exactly when the held
    /// bytes have reached the ceiling in force. A source failure is
    /// reported as `Io`; either way framing state is untouched, so a
    /// later call may succeed as if the failed one had never happened.
    pub fn read<S: ByteSource>(&mut self, rd: &mut S) -> (r: Result<usize, Error>)
        ensures
            (spec_total(old(self)@) >= spec_allow_max(old(self)@)) <==> (r matches Err(e) && e
                == Error::BufferFull),
            r matches Err(e) ==> ({
                &&& e == Error::BufferFull || e == Error::Io
                &&& final(self)@.buffered == old(self)@.buffered
                &&& final(self)@.joining == old(self)@.joining
                &&& final(self)@.desynced == old(self)@.desynced
            }),
            r matches Ok(n) ==> ({
                &&& final(self)@.buffered.len() == old(self)@.buffered.len() + n
                &&& final(self)@.buffered.subrange(0, old(self)@.buffered.len() as int) == old(
                    self,
                )@.buffered
                &&& final(self)@.joining == old(self)@.joining
                &&& final(self)@.desynced == old(self)@.desynced
                &&& spec_total(final(self)@) <= final(self)@.cap <= MAX_HANDSHAKE_SIZE as int
            }),
    {
        match self.prepare_read() {
            Err(e) => {
                return Err(e);
            },
            Ok(_) => {},
        }
        let acc_len: usize = match &self.joining_hs {
            Some(meta) => meta.payload.len(),
            None => 0,
        };
        let room = self.cap - (self.buf.len() + acc_len);
        match rd.read_chunk(room) {
            Err(_) => Err(Error::Io),
            Ok(mut chunk) => {
                if chunk.len() > room {
                    chunk.truncate(room);
                }
                let n = chunk.len();
                self.buf.append(&mut chunk);
                proof {
                    assert(self.buf@.subrange(0, old(self)@.buffered.len() as int) =~= old(
                        self,
                    )@.buffered);
                }
                Ok(n)
            },
        }
    }

    /// Inject an already delimited handshake payload, bypassing record
    /// parsing: the ingress used when the transport frames the
    /// handshake stream itself. Such a reassembly cannot be fed by
    /// `read`, and `pop` never scans the buffer for it.
    pub fn push(&mut self, version: ProtocolVersion, payload: &[u8]) -> (r: Result<(), Error>)
        ensures
            spec_push_post(old(self)@, version, payload@, r, final(self)@),
    {
        if self.buf.len() > 0 && self.joining_hs.is_none() {
            return Err(Error::InvalidPush);
        }
        match self.prepare_read() {
            Err(e) => {
                return Err(e);
            },
            Ok(_) => {},
        }
        // The bytes about to be gathered fall under the handshake
        // ceiling; refuse the push rather than outgrow it.
        let acc_len: usize = match &self.joining_hs {
            Some(meta) => meta.payload.len(),
            None => 0,
        };
        if payload.len() > MAX_HANDSHAKE_SIZE - (self.buf.len() + acc_len) {
            return Err(Error::BufferFull);
        }
        if self.joining_hs.is_none() {
            match payload_size(payload) {
                Err(e) => {
                    self.desynced = true;
                    return Err(e);
                },
                Ok(exp) => {
                    self.joining_hs = Some(
                        HandshakePayloadMeta {
                            payload: crate::codec::bytes_of(payload),
                            version,
                            expected_len: exp,
                            quic: true,
                        },
                    );
                    return Ok(());
                },
            }
        }
        let mut meta = self.joining_hs.take().unwrap();
        let mut extra = crate::codec::bytes_of(payload);
        meta.payload.append(&mut extra);
        if meta.expected_len.is_none() {
            match payload_size(meta.payload.as_slice()) {
                Err(e) => {
                    self.joining_hs = Some(meta);
                    self.desynced = true;
                    return Err(e);
                },
                Ok(exp) => {
                    meta.expected_len = exp;
                },
            }
        }
        self.joining_hs = Some(meta);
        Ok(())
    }

    /// Fold one decrypted handshake record into the reassembly.
    fn fold_handshake(&mut self, msg: PlainMessage) -> (r: Result<(), Error>)
        ensures
            final(self)@.buffered == old(self)@.buffered,
            final(self)@.cap == old(self)@.cap,
            spec_fold_post(old(self)@, msg, r, final(self)@),
    {
        if self.joining_hs.is_none() {
            match payload_size(msg.payload.0.as_slice()) {
                Err(e) => {
                    self.desynced = true;
                    return Err(e);
                },
                Ok(exp) => {
                    self.joining_hs = Some(
                        HandshakePayloadMeta {
                            payload: msg.payload.0,
                            version: msg.version,
                            expected_len: exp,
                            quic: false,
                        },
                    );
                    return Ok(());
                },
            }
        }
        let mut meta = self.joining_hs.take().unwrap();
        let mut extra = msg.payload.0;
        meta.payload.append(&mut extra);
        if meta.expected_len.is_none() {
            match payload_size(meta.payload.as_slice()) {
                Err(e) => {
                    self.joining_hs = Some(meta);
                    self.desynced = true;
                    return Err(e);
                },
                Ok(exp) => {
                    meta.expected_len = exp;
                },
            }
        }
        self.joining_hs = Some(meta);
        Ok(())
    }

    /// Yield the completed front of the reassembly as one handshake
    /// message.
    fn take_joined(&mut self) -> (r: Result<Option<Deframed>, Error>)
        requires
            !old(self)@.desynced,
            old(self)@.joining matches Some(j) && spec_join_complete(j),
        ensures
            spec_extract_post(old(self)@, r, final(self)@),
    {
        let mut meta = self.joining_hs.take().unwrap();
        let len = match meta.expected_len {
            Some(l) => l,
            None => 0,
        };
        let rest = meta.payload.split_off(len);
        let version = meta.version;
        let direct = meta.quic;
        let message = PlainMessage {
            typ: ContentType::Handshake,
            version,
            payload: Payload::new(meta.payload),
        };
        proof {
            assert(rest@ =~= match old(self)@.joining {
                Some(j) => j.payload.skip(match j.expected {
                    Some(l) => l,
                    None => 0,
                }),
                None => Seq::<u8>::empty(),
            });
        }
        if rest.len() > 0 {
            match payload_size(rest.as_slice()) {
                Err(e) => {
                    self.joining_hs = Some(
                        HandshakePayloadMeta {
                            payload: rest,
                            version,
                            expected_len: Some(len),
                            quic: direct,
                        },
                    );
                    self.desynced = true;
                    Err(e)
                },
                Ok(exp2) => {
                    self.joining_hs = Some(
                        HandshakePayloadMeta {
                            payload: rest,
                            version,
                            expected_len: exp2,
                            quic: direct,
                        },
                    );
                    Ok(
                        Some(
                            Deframed {
                                want_close_before_decrypt: false,
                                aligned: false,
                                trial_decryption_finished: true,
                                message,
                            },
                        ),
                    )
                },
            }
        } else {
            Ok(
                Some(
                    Deframed {
                        want_close_before_decrypt: false,
                        aligned: true,
                        trial_decryption_finished: true,
                        message,
                    },
                ),
            )
        }
    }

    /// Apply one outcome of the record-protection step to the record
    /// spanning the first `end` buffered bytes; see [`spec_accept_post`]
    /// for the exact dispatch law.
    fn accept_record(&mut self, end: usize, outcome: Option<PlainMessage>) -> (r: Result<
        Option<Deframed>,
        Error,
    >)
        requires
            !old(self)@.desynced,
            5 <= end <= old(self)@.buffered.len(),
        ensures
            spec_accept_post(old(self)@, end as int, outcome, r, final(self)@),
    {
        let m = match outcome {
            None => {
                // Rejected by trial decryption: interleaved with a
                // reassembly it is fatal, alone it is skipped.
                if self.joining_hs.is_some() {
                    self.desynced = true;
                    return Err(Error::PeerMisbehaved);
                }
                self.discard(end);
                return Ok(None);
            },
            Some(m) => m,
        };
        // Handshake fragments must not interleave with any other
        // record type; a lone record of another type is the result.
        if !(m.typ == ContentType::Handshake) {
            if self.joining_hs.is_some() {
                self.desynced = true;
                return Err(Error::PeerMisbehaved);
            }
            self.discard(end);
            return Ok(
                Some(
                    Deframed {
                        want_close_before_decrypt: false,
                        aligned: true,
                        trial_decryption_finished: false,
                        message: m,
                    },
                ),
            );
        }
        // A handshake plaintext cannot outgrow the record that carried
        // it; refusing the impossible keeps buffering bounded.
        if m.payload.0.len() > end - 5 {
            return Err(Error::DecryptError);
        }
        // Gather the fragment, then yield if that completes a message.
        self.discard(end);
        match self.fold_handshake(m) {
            Err(e) => {
                return Err(e);
            },
            Ok(_) => {},
        }
        let mut ready: bool = false;
        match &self.joining_hs {
            Some(meta) => {
                match meta.expected_len {
                    Some(len) => {
                        if len <= meta.payload.len() {
                            ready = true;
                        }
                    },
                    None => {},
                }
            },
            None => {},
        }
        if ready {
            return self.take_joined();
        }
        Ok(None)
    }

    /// Produce at most one fully formed plaintext message from what is
    /// buffered, asking `record_layer` to decrypt records as needed.
    ///
    /// A desynchronized deframer fails the same way forever. `Ok(None)`
    /// reports that nothing complete is available yet. Framing faults
    /// desynchronize permanently; what a decrypted record leads to is
    /// up to the record-protection collaborator, but a completed
    /// reassembly is always yielded exactly as gathered.
    #[verifier::loop_isolation(false)]
    pub fn pop<D: RecordDecrypter>(&mut self, record_layer: &mut D) -> (r: Result<
        Option<Deframed>,
        Error,
    >)
        ensures
            old(self)@.desynced ==> ({
                &&& r matches Err(e) && e == Error::CorruptMessage
                &&& final(self)@ == old(self)@
            }),
            (!old(self)@.desynced && old(self)@.buffered.len() == 0 && old(self)@.joining
                is None) ==> ({
                &&& r matches Ok(s) && s is None
                &&& final(self)@ == old(self)@
            }),
            (!old(self)@.desynced && (old(self)@.joining matches Some(j)
                && spec_join_complete(j))) ==> spec_extract_post(old(self)@, r, final(self)@),
            (!old(self)@.desynced && (old(self)@.joining matches Some(j)
                && !spec_join_complete(j) && j.direct)) ==> ({
                &&& r matches Ok(s) && s is None
                &&& final(self)@ == old(self)@
            }),
            spec_scanning(old(self)@) ==> spec_scan_post(old(self)@, r, final(self)@),
            !old(self)@.desynced ==> spec_joining_emit(old(self)@, r),
            r matches Ok(s) ==> final(self)@.desynced == old(self)@.desynced,
            final(self)@.desynced != old(self)@.desynced ==> (r matches Err(e) && (e
                == Error::CorruptMessage || e == Error::PeerMisbehaved || e
                == Error::CorruptMessagePayload(ContentType::Handshake))),
            spec_total(final(self)@) <= spec_total(old(self)@),
            final(self)@.cap == old(self)@.cap,
            exists|k: int|
                0 <= k <= old(self)@.buffered.len() && final(self)@.buffered == old(
                    self,
                )@.buffered.skip(k),
    {
        proof {
            lemma_skip_zero(old(self)@.buffered);
        }
        if self.desynced {
            return Err(Error::CorruptMessage);
        }
        if self.buf.len() == 0 && self.joining_hs.is_none() {
            return Ok(None);
        }
        // A completed reassembly is yielded without scanning; one fed
        // through `push` but still short cannot gain from the buffer.
        let mut ready: bool = false;
        match &self.joining_hs {
            Some(meta) => {
                match meta.expected_len {
                    Some(len) => {
                        if len <= meta.payload.len() {
                            ready = true;
                        }
                    },
                    None => {},
                }
                if !ready && meta.quic {
                    return Ok(None);
                }
            },
            None => {},
        }
        if ready {
            return self.take_joined();
        }
        let ghost mut consumed: int = 0;
        loop
            invariant
                0 <= consumed <= old(self)@.buffered.len(),
                self@.buffered == old(self)@.buffered.skip(consumed),
                spec_total(self@) <= spec_total(old(self)@),
                !self.desynced,
                self@.cap == old(self)@.cap,
                match self@.joining {
                    Some(j) => !spec_join_complete(j) && !j.direct,
                    None => true,
                },
                self@ == old(self)@ || (match spec_read(old(self)@.buffered) {
                    Ok(m0) => !(m0.typ == ContentType::ChangeCipherSpec && old(self)@.joining
                        is None),
                    Err(_) => false,
                }),
                match old(self)@.joining {
                    Some(j) => !spec_join_complete(j) && !j.direct,
                    None => true,
                },
                old(self)@.joining matches Some(j) ==> (self@.joining matches Some(j2)
                    && j2.version == j.version),
                !old(self)@.desynced,
            decreases self.buf.len(),
        {
            // Parse one record from the front of the buffer.
            let m = match OpaqueMessage::read(self.buf.as_slice()) {
                Err(MessageError::TooShortForHeader) => {
                    return Ok(None);
                },
                Err(MessageError::TooShortForLength) => {
                    return Ok(None);
                },
                Err(_) => {
                    self.desynced = true;
                    return Err(Error::CorruptMessage);
                },
                Ok(m) => m,
            };
            let end = crate::message::HEADER_SIZE + m.payload.len();

            // An unencrypted change-cipher-spec record outside any
            // reassembly is emitted at once, with no decryption.
            if self.joining_hs.is_none() && m.typ == ContentType::ChangeCipherSpec {
                let message = m.to_plain_message();
                proof {
                    lemma_skip_skip(old(self)@.buffered, consumed, end as int);
                }
                self.discard(end);
                proof {
                    consumed = consumed + end;
                }
                return Ok(
                    Some(
                        Deframed {
                            want_close_before_decrypt: false,
                            aligned: true,
                            trial_decryption_finished: false,
                            message,
                        },
                    ),
                );
            }

            // Hand the record to the record-protection collaborator,
            // then let the verified dispatch apply its outcome.
            let outcome = match record_layer.decrypt_incoming(m) {
                Ok(Some(d)) => Some(d.plaintext),
                Ok(None) => None,
                Err(e) => {
                    return Err(e);
                },
            };
            proof {
                lemma_skip_skip(old(self)@.buffered, consumed, end as int);
            }
            match self.accept_record(end, outcome) {
                Err(e) => {
                    return Err(e);
                },
                Ok(Some(d)) => {
                    return Ok(Some(d));
                },
                Ok(None) => {},
            }
            proof {
                consumed = consumed + end;
            }
            if self.buf.len() == 0 {
                return Ok(None);
            }
        }
    }
}

} // verus!
