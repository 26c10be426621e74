//! Byte-level primitives: big-endian length fields and a cursor over a
//! byte buffer, shared by every wire structure in the crate.

use vstd::prelude::*;

verus! {

/// Big-endian encoding of a 16-bit value.
pub open spec fn spec_u16_bytes(n: u16) -> Seq<u8> {
    seq![(n / 256) as u8, (n % 256) as u8]
}

/// The 16-bit value read back from two big-endian bytes.
pub open spec fn spec_u16_of(hi: u8, lo: u8) -> u16 {
    (hi * 256 + lo) as u16
}

/// Big-endian encoding of a 24-bit value (the low three bytes of `n`).
pub open spec fn spec_u24_bytes(n: u32) -> Seq<u8> {
    seq![((n / 65536) % 256) as u8, ((n / 256) % 256) as u8, (n % 256) as u8]
}

/// The 24-bit value read back from three big-endian bytes.
pub open spec fn spec_u24_of(b0: u8, b1: u8, b2: u8) -> u32 {
    (b0 * 65536 + b1 * 256 + b2) as u32
}

/// Encoding the value read from two bytes reproduces those bytes.
pub proof fn lemma_u16_round_trip(hi: u8, lo: u8)
    ensures
        spec_u16_bytes(spec_u16_of(hi, lo)) == seq![hi, lo],
{
    let h = hi as int;
    let l = lo as int;
    let n = h * 256 + l;
    assert(n / 256 == h && n % 256 == l) by (nonlinear_arith)
        requires
            0 <= h && h < 256,
            0 <= l && l < 256,
            n == h * 256 + l,
    ;
    assert(spec_u16_bytes(spec_u16_of(hi, lo)) =~= seq![hi, lo]);
}

/// Append the two big-endian bytes of `n`.
pub fn put_u16(n: u16, bytes: &mut Vec<u8>)
    ensures
        final(bytes)@ == old(bytes)@ + spec_u16_bytes(n),
{
    let hi: u8 = (n / 256) as u8;
    let lo: u8 = (n % 256) as u8;
    bytes.push(hi);
    bytes.push(lo);
    proof {
        assert(final(bytes)@ =~= old(bytes)@ + spec_u16_bytes(n));
    }
}

/// Append the three big-endian bytes of the 24-bit value `n`.
pub fn put_u24(n: u32, bytes: &mut Vec<u8>)
    requires
        n < 0x1000000,
    ensures
        final(bytes)@ == old(bytes)@ + spec_u24_bytes(n),
{
    let b0: u8 = ((n / 65536) % 256) as u8;
    let b1: u8 = ((n / 256) % 256) as u8;
    let b2: u8 = (n % 256) as u8;
    bytes.push(b0);
    bytes.push(b1);
    bytes.push(b2);
    proof {
        assert(final(bytes)@ =~= old(bytes)@ + spec_u24_bytes(n));
    }
}

/// Copy a byte slice into a fresh vector.
pub fn bytes_of(s: &[u8]) -> (r: Vec<u8>)
    ensures
        r@ == s@,
{
    let mut r: Vec<u8> = Vec::new();
    let mut i: usize = 0;
    while i < s.len()
        invariant
            i <= s@.len(),
            r@ == s@.subrange(0, i as int),
        decreases s@.len() - i,
    {
        let b: u8 = s[i];
        r.push(b);
        i = i + 1;
        proof {
            assert(r@ =~= s@.subrange(0, i as int));
        }
    }
    proof {
        assert(s@.subrange(0, s@.len() as int) =~= s@);
    }
    r
}

/// The ghost state of a [`Reader`]: the whole buffer and the cursor.
pub struct ReaderModel {
    pub data: Seq<u8>,
    pub pos: int,
}

impl ReaderModel {
    /// The bytes not yet consumed.
    pub open spec fn remaining(self) -> Seq<u8> {
        self.data.skip(self.pos)
    }

    /// The cursor never runs past the end of the buffer.
    pub open spec fn wf(self) -> bool {
        0 <= self.pos <= self.data.len()
    }
}

/// A cursor over an owned byte buffer; decoding functions consume bytes
/// from the front of its remaining range.
pub struct Reader {
    data: Vec<u8>,
    pos: usize,
}

impl View for Reader {
    type V = ReaderModel;

    closed spec fn view(&self) -> ReaderModel {
        ReaderModel { data: self.data@, pos: self.pos as int }
    }
}

impl Reader {
    /// Start reading at the front of `data`.
    pub fn init(data: Vec<u8>) -> (r: Reader)
        ensures
            r@.data == data@,
            r@.pos == 0,
            r@.wf(),
    {
        Reader { data, pos: 0 }
    }

    /// How many bytes are left.
    pub fn left(&self) -> (n: usize)
        requires
            self@.wf(),
        ensures
            n == self@.data.len() - self@.pos,
    {
        self.data.len() - self.pos
    }

    /// Whether any bytes are left.
    pub fn any_left(&self) -> (b: bool)
        requires
            self@.wf(),
        ensures
            b == (self@.pos < self@.data.len()),
    {
        self.pos < self.data.len()
    }

    /// Consume the next `n` bytes, or fail without consuming anything if
    /// fewer than `n` remain.
    pub fn take(&mut self, n: usize) -> (res: Option<Vec<u8>>)
        requires
            old(self)@.wf(),
        ensures
            final(self)@.wf(),
            final(self)@.data == old(self)@.data,
            if old(self)@.pos + n <= old(self)@.data.len() {
                res matches Some(v) && v@ == old(self)@.data.subrange(
                    old(self)@.pos,
                    old(self)@.pos + n,
                ) && final(self)@.pos == old(self)@.pos + n
            } else {
                res is None && final(self)@.pos == old(self)@.pos
            },
    {
        if n <= self.data.len() - self.pos {
            let end = self.pos + n;
            let v = bytes_of(&self.data.as_slice()[self.pos..end]);
            self.pos = end;
            Some(v)
        } else {
            None
        }
    }

    /// Consume one byte, or fail without consuming anything if none is left.
    pub fn take_byte(&mut self) -> (res: Option<u8>)
        requires
            old(self)@.wf(),
        ensures
            final(self)@.wf(),
            final(self)@.data == old(self)@.data,
            if old(self)@.pos < old(self)@.data.len() {
                res matches Some(b) && b == old(self)@.data[old(self)@.pos] && final(self)@.pos
                    == old(self)@.pos + 1
            } else {
                res is None && final(self)@.pos == old(self)@.pos
            },
    {
        if self.pos < self.data.len() {
            let b = self.data[self.pos];
            self.pos = self.pos + 1;
            Some(b)
        } else {
            None
        }
    }

    /// Consume and return everything that is left.
    pub fn rest(&mut self) -> (v: Vec<u8>)
        requires
            old(self)@.wf(),
        ensures
            final(self)@.wf(),
            final(self)@.data == old(self)@.data,
            final(self)@.pos == old(self)@.data.len(),
            v@ == old(self)@.remaining(),
    {
        let end = self.data.len();
        let v = bytes_of(&self.data.as_slice()[self.pos..end]);
        self.pos = end;
        v
    }
}

} // verus!
