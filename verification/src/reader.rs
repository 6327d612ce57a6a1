//! The input side of the stream: a byte buffer and a cursor into it.

use crate::codec::{decode_i32, decode_i64, decode_u64, decode_u8, take_fixed};
use crate::error::Error;
use crate::wire::{i32_from_le_bytes, i64_from_le_bytes, u64_from_le_bytes};
use vstd::prelude::*;
use vstd::slice::{slice_subrange, slice_to_vec};

verus! {

/// A cursor over bytes that were read into memory. Its view is the input
/// that is still unread.
pub struct Reader {
    data: Vec<u8>,
    pos: usize,
}

impl View for Reader {
    type V = Seq<u8>;

    closed spec fn view(&self) -> Seq<u8> {
        self.data@.skip(self.pos as int)
    }
}

/// What reading `count` raw bytes makes of `input`: the bytes and the input
/// behind them, or a failure that leaves the input where it was.
pub open spec fn take_bytes(input: Seq<u8>, count: nat) -> (Result<Seq<u8>, Error>, Seq<u8>) {
    if input.len() >= count {
        (Ok(input.take(count as int)), input.skip(count as int))
    } else {
        (Err(Error::UnderlyingIoFailure), input)
    }
}

impl Reader {
    #[verifier::type_invariant]
    spec fn in_bounds(&self) -> bool {
        self.pos <= self.data@.len()
    }

    /// A reader at the start of `data`.
    pub fn new(data: Vec<u8>) -> (reader: Reader)
        ensures
            reader@ == data@,
    {
        let reader = Reader { data, pos: 0 };
        assert(reader@ =~= data@);
        reader
    }

    /// The number of bytes that are still unread.
    pub fn remaining(&self) -> (n: usize)
        ensures
            n == self@.len(),
    {
        proof {
            use_type_invariant(self);
        }
        self.data.len() - self.pos
    }

    fn rest(&self) -> (bytes: &[u8])
        ensures
            bytes@ == self@,
    {
        proof {
            use_type_invariant(self);
        }
        let bytes = slice_subrange(self.data.as_slice(), self.pos, self.data.len());
        assert(bytes@ =~= self@);
        bytes
    }

    fn advance(&mut self, count: usize)
        requires
            count <= old(self)@.len(),
        ensures
            final(self)@ == old(self)@.skip(count as int),
    {
        proof {
            use_type_invariant(&*self);
        }
        let len = self.data.len();
        assert(self.pos + count <= len);
        self.pos = self.pos + count;
        assert(self@ =~= old(self)@.skip(count as int));
    }

    /// Reads one byte.
    pub fn read_u8(&mut self) -> (r: Result<u8, Error>)
        ensures
            (r, final(self)@) == take_fixed(old(self)@, 1, old(self)@[0]),
    {
        let r = decode_u8(self.rest());
        if r.is_ok() {
            self.advance(1);
        }
        r
    }

    /// Reads a 32-bit signed integer, lowest byte first.
    pub fn read_i32(&mut self) -> (r: Result<i32, Error>)
        ensures
            (r, final(self)@) == take_fixed(old(self)@, 4, i32_from_le_bytes(old(self)@)),
    {
        let r = decode_i32(self.rest());
        if r.is_ok() {
            self.advance(4);
        }
        r
    }

    /// Reads a 64-bit signed integer, lowest byte first.
    pub fn read_i64(&mut self) -> (r: Result<i64, Error>)
        ensures
            (r, final(self)@) == take_fixed(old(self)@, 8, i64_from_le_bytes(old(self)@)),
    {
        let r = decode_i64(self.rest());
        if r.is_ok() {
            self.advance(8);
        }
        r
    }

    /// Reads a 64-bit unsigned integer, lowest byte first.
    pub fn read_u64(&mut self) -> (r: Result<u64, Error>)
        ensures
            (r, final(self)@) == take_fixed(old(self)@, 8, u64_from_le_bytes(old(self)@)),
    {
        let r = decode_u64(self.rest());
        if r.is_ok() {
            self.advance(8);
        }
        r
    }

    /// Reads `count` raw bytes.
    pub fn read_bytes(&mut self, count: u64) -> (r: Result<Vec<u8>, Error>)
        ensures
            match take_bytes(old(self)@, count as nat).0 {
                Ok(bytes) => r is Ok && r->Ok_0@ == bytes,
                Err(e) => r == Err::<Vec<u8>, Error>(e),
            },
            final(self)@ == take_bytes(old(self)@, count as nat).1,
    {
        let left = self.remaining();
        if count <= left as u64 {
            let n = count as usize;
            let bytes = slice_to_vec(slice_subrange(self.rest(), 0, n));
            self.advance(n);
            Ok(bytes)
        } else {
            Err(Error::UnderlyingIoFailure)
        }
    }
}

} // verus!
