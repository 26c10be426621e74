//! Reassembly of TLS messages from an arbitrarily chunked byte stream.
//!
//! The crate covers the wire-level core of a TLS implementation: the
//! length-prefixed payload primitives, the three message forms (opaque
//! record, decrypted plaintext record, fully decoded message), and the
//! stateful deframer that turns a byte stream into plaintext messages
//! while enforcing record framing, handshake-fragment coalescing and
//! bounded buffering.

pub mod base;
pub mod codec;
pub mod deframer;
pub mod enums;
pub mod error;
pub mod message;
pub mod record_layer;
