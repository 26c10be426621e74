//! The record-protection collaborator: the one operation the deframer
//! needs from the cipher layer, and the pass-through form of it used
//! before any traffic keys exist.

use vstd::prelude::*;

use crate::error::Error;
use crate::message::{OpaqueMessage, PlainMessage};

verus! {

/// The outcome of a successful decryption: the plaintext record, and a
/// flag telling the caller the peer asked for the connection to close
/// before this record is used.
pub struct Decrypted {
    pub want_close_before_decrypt: bool,
    pub plaintext: PlainMessage,
}

/// A capability that can decrypt one wire record, or reject it.
///
/// `Ok(Some(_))` carries the plaintext; `Ok(None)` means trial
/// decryption rejected the record (used to drop unauthenticated early
/// data); `Err(_)` is a hard decryption failure. The deframer makes no
/// assumption about which of the three an implementation returns.
pub trait RecordDecrypter {
    fn decrypt_incoming(&mut self, msg: OpaqueMessage) -> Result<Option<Decrypted>, Error>;
}

/// The record protection in force before traffic keys are installed:
/// every record already is its own plaintext.
pub struct RecordLayer {}

impl RecordLayer {
    pub fn new() -> RecordLayer {
        RecordLayer {  }
    }
}

impl RecordDecrypter for RecordLayer {
    fn decrypt_incoming(&mut self, msg: OpaqueMessage) -> (r: Result<Option<Decrypted>, Error>)
        ensures
            r matches Ok(d) && d matches Some(d2) && !d2.want_close_before_decrypt
                && d2.plaintext.typ == msg.typ && d2.plaintext.version == msg.version
                && d2.plaintext.payload@ == msg.payload@,
    {
        Ok(
            Some(
                Decrypted {
                    want_close_before_decrypt: false,
                    plaintext: msg.to_plain_message(),
                },
            ),
        )
    }
}

} // verus!
