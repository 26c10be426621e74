//! The error taxonomy of the record layer.

use vstd::prelude::*;

use crate::enums::ContentType;

verus! {

/// Why an operation on the record layer failed.
///
/// `CorruptMessage` and `PeerMisbehaved` are permanent: the deframer that
/// raised one is desynchronized and every later `pop` fails the same way.
/// `CorruptMessagePayload` carries the content type whose payload failed
/// to decode. `BufferFull` means the bounded buffer ceiling was reached.
/// `Io` reports a transient byte-source failure and leaves framing state
/// untouched. `DecryptError` is raised by record-protection collaborators.
#[derive(Clone, Copy, Debug, PartialEq, Eq, Structural)]
pub enum Error {
    CorruptMessage,
    CorruptMessagePayload(ContentType),
    PeerMisbehaved,
    InvalidPush,
    BufferFull,
    Io,
    DecryptError,
}

/// A failure reported by a byte source; it carries no detail, and the
/// deframer maps it to [`Error::Io`] without touching framing state.
#[derive(Clone, Copy, Debug, PartialEq, Eq, Structural)]
pub struct SourceError;

} // verus!
