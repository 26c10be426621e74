//! Length-prefixed payload primitives: byte blobs framed by a 1-, 2- or
//! 3-byte big-endian length, the foundation of every other wire structure.

use vstd::prelude::*;

use crate::codec::{bytes_of, put_u16, put_u24, spec_u16_bytes, spec_u16_of, spec_u24_bytes,
    spec_u24_of, Reader};

verus! {

/// An externally length'd payload: a plain byte blob whose length is
/// known from its surroundings.
#[derive(Clone, Debug)]
pub struct Payload(pub Vec<u8>);

impl View for Payload {
    type V = Seq<u8>;

    open spec fn view(&self) -> Seq<u8> {
        self.0@
    }
}

impl Payload {
    pub fn new(bytes: Vec<u8>) -> (p: Payload)
        ensures
            p@ == bytes@,
    {
        Payload(bytes)
    }

    pub fn empty() -> (p: Payload)
        ensures
            p@ == Seq::<u8>::empty(),
    {
        let v: Vec<u8> = Vec::new();
        Payload(v)
    }

    /// Consume everything the reader has left.
    pub fn read(r: &mut Reader) -> (p: Payload)
        requires
            old(r)@.wf(),
        ensures
            final(r)@.wf(),
            final(r)@.data == old(r)@.data,
            final(r)@.pos == old(r)@.data.len(),
            p@ == old(r)@.remaining(),
    {
        Payload(r.rest())
    }

    /// An independent copy of this payload.
    pub fn to_owned(&self) -> (p: Payload)
        ensures
            p@ == self@,
    {
        Payload(bytes_of(self.0.as_slice()))
    }

    /// Append the raw bytes; the length is framed by the caller.
    pub fn encode(&self, bytes: &mut Vec<u8>)
        ensures
            final(bytes)@ == old(bytes)@ + self@,
    {
        let mut copy = bytes_of(self.0.as_slice());
        bytes.append(&mut copy);
    }
}

/// A byte blob prefixed by a 3-byte big-endian length.
#[derive(Debug)]
pub struct PayloadU24(pub Vec<u8>);

/// The wire form of a 3-byte-length-prefixed blob.
pub open spec fn spec_u24_wire(body: Seq<u8>) -> Seq<u8> {
    spec_u24_bytes(body.len() as u32) + body
}

impl View for PayloadU24 {
    type V = Seq<u8>;

    open spec fn view(&self) -> Seq<u8> {
        self.0@
    }
}

impl PayloadU24 {
    pub fn new(bytes: Vec<u8>) -> (p: PayloadU24)
        ensures
            p@ == bytes@,
    {
        PayloadU24(bytes)
    }

    /// Append the 3-byte length then the bytes.
    pub fn encode(&self, bytes: &mut Vec<u8>)
        requires
            self@.len() < 0x1000000,
        ensures
            final(bytes)@ == old(bytes)@ + spec_u24_wire(self@),
    {
        put_u24(self.0.len() as u32, bytes);
        let mut copy = bytes_of(self.0.as_slice());
        bytes.append(&mut copy);
        proof {
            assert(final(bytes)@ =~= old(bytes)@ + spec_u24_wire(self@));
        }
    }

    /// Read a 3-byte length, then exactly that many bytes.
    pub fn read(r: &mut Reader) -> (res: Option<PayloadU24>)
        requires
            old(r)@.wf(),
        ensures
            final(r)@.wf(),
            final(r)@.data == old(r)@.data,
            ({
                let rem = old(r)@.remaining();
                if rem.len() >= 3 && 3 + spec_u24_of(rem[0], rem[1], rem[2]) <= rem.len() {
                    let n = spec_u24_of(rem[0], rem[1], rem[2]) as int;
                    res matches Some(p) && p@ == rem.subrange(3, 3 + n) && final(r)@.pos == old(
                        r,
                    )@.pos + 3 + n
                } else {
                    res is None
                }
            }),
    {
        let b0 = match r.take_byte() {
            Some(b) => b,
            None => { return None; },
        };
        let b1 = match r.take_byte() {
            Some(b) => b,
            None => { return None; },
        };
        let b2 = match r.take_byte() {
            Some(b) => b,
            None => { return None; },
        };
        let n: u32 = (b0 as u32) * 65536 + (b1 as u32) * 256 + (b2 as u32);
        let body = match r.take(n as usize) {
            Some(v) => v,
            None => { return None; },
        };
        Some(PayloadU24(body))
    }
}

/// A byte blob prefixed by a 2-byte big-endian length.
#[derive(Debug)]
pub struct PayloadU16(pub Vec<u8>);

/// The wire form of a 2-byte-length-prefixed blob.
pub open spec fn spec_u16_wire(body: Seq<u8>) -> Seq<u8> {
    spec_u16_bytes(body.len() as u16) + body
}

impl View for PayloadU16 {
    type V = Seq<u8>;

    open spec fn view(&self) -> Seq<u8> {
        self.0@
    }
}

impl PayloadU16 {
    pub fn new(bytes: Vec<u8>) -> (p: PayloadU16)
        ensures
            p@ == bytes@,
    {
        PayloadU16(bytes)
    }

    pub fn empty() -> (p: PayloadU16)
        ensures
            p@ == Seq::<u8>::empty(),
    {
        let v: Vec<u8> = Vec::new();
        PayloadU16(v)
    }

    /// Append the 2-byte length of `slice` then its bytes.
    pub fn encode_slice(slice: &[u8], bytes: &mut Vec<u8>)
        requires
            slice@.len() < 0x10000,
        ensures
            final(bytes)@ == old(bytes)@ + spec_u16_wire(slice@),
    {
        put_u16(slice.len() as u16, bytes);
        let mut copy = bytes_of(slice);
        bytes.append(&mut copy);
        proof {
            assert(final(bytes)@ =~= old(bytes)@ + spec_u16_wire(slice@));
        }
    }

    /// Append the 2-byte length then the bytes.
    pub fn encode(&self, bytes: &mut Vec<u8>)
        requires
            self@.len() < 0x10000,
        ensures
            final(bytes)@ == old(bytes)@ + spec_u16_wire(self@),
    {
        PayloadU16::encode_slice(self.0.as_slice(), bytes);
    }

    /// Read a 2-byte length, then exactly that many bytes.
    pub fn read(r: &mut Reader) -> (res: Option<PayloadU16>)
        requires
            old(r)@.wf(),
        ensures
            final(r)@.wf(),
            final(r)@.data == old(r)@.data,
            ({
                let rem = old(r)@.remaining();
                if rem.len() >= 2 && 2 + spec_u16_of(rem[0], rem[1]) <= rem.len() {
                    let n = spec_u16_of(rem[0], rem[1]) as int;
                    res matches Some(p) && p@ == rem.subrange(2, 2 + n) && final(r)@.pos == old(
                        r,
                    )@.pos + 2 + n
                } else {
                    res is None
                }
            }),
    {
        let b0 = match r.take_byte() {
            Some(b) => b,
            None => { return None; },
        };
        let b1 = match r.take_byte() {
            Some(b) => b,
            None => { return None; },
        };
        let n: u16 = (b0 as u16) * 256 + (b1 as u16);
        let body = match r.take(n as usize) {
            Some(v) => v,
            None => { return None; },
        };
        Some(PayloadU16(body))
    }
}

/// A byte blob prefixed by a 1-byte length.
#[derive(Debug)]
pub struct PayloadU8(pub Vec<u8>);

/// The wire form of a 1-byte-length-prefixed blob.
pub open spec fn spec_u8_wire(body: Seq<u8>) -> Seq<u8> {
    seq![body.len() as u8] + body
}

impl View for PayloadU8 {
    type V = Seq<u8>;

    open spec fn view(&self) -> Seq<u8> {
        self.0@
    }
}

impl PayloadU8 {
    pub fn new(bytes: Vec<u8>) -> (p: PayloadU8)
        ensures
            p@ == bytes@,
    {
        PayloadU8(bytes)
    }

    pub fn empty() -> (p: PayloadU8)
        ensures
            p@ == Seq::<u8>::empty(),
    {
        let v: Vec<u8> = Vec::new();
        PayloadU8(v)
    }

    pub fn into_inner(self) -> (v: Vec<u8>)
        ensures
            v@ == self@,
    {
        self.0
    }

    /// Append the 1-byte length then the bytes.
    pub fn encode(&self, bytes: &mut Vec<u8>)
        requires
            self@.len() < 0x100,
        ensures
            final(bytes)@ == old(bytes)@ + spec_u8_wire(self@),
    {
        bytes.push(self.0.len() as u8);
        let mut copy = bytes_of(self.0.as_slice());
        bytes.append(&mut copy);
        proof {
            assert(final(bytes)@ =~= old(bytes)@ + spec_u8_wire(self@));
        }
    }

    /// Read a 1-byte length, then exactly that many bytes.
    pub fn read(r: &mut Reader) -> (res: Option<PayloadU8>)
        requires
            old(r)@.wf(),
        ensures
            final(r)@.wf(),
            final(r)@.data == old(r)@.data,
            ({
                let rem = old(r)@.remaining();
                if rem.len() >= 1 && 1 + rem[0] <= rem.len() {
                    let n = rem[0] as int;
                    res matches Some(p) && p@ == rem.subrange(1, 1 + n) && final(r)@.pos == old(
                        r,
                    )@.pos + 1 + n
                } else {
                    res is None
                }
            }),
    {
        let b0 = match r.take_byte() {
            Some(b) => b,
            None => { return None; },
        };
        let body = match r.take(b0 as usize) {
            Some(v) => v,
            None => { return None; },
        };
        Some(PayloadU8(body))
    }
}

} // verus!
