//! Text: unversioned, the length of its UTF-8 bytes and then the bytes.

use crate::codec::{decode_text, take_fixed, write_bytes, write_u64};
use crate::dispatch::{Payload, SafeCopy};
use crate::error::Error;
use crate::policy::Primitive;
use crate::reader::{take_bytes, Reader};
use crate::wire::{lemma_u64_roundtrip, u64_from_le_bytes, u64_le_bytes};
use vstd::prelude::*;
use vstd::utf8::{decode_utf8, encode_utf8, encode_utf8_decode_utf8, encode_utf8_valid_utf8, valid_utf8};

verus! {

/// What checking raw bytes for UTF-8 gives: the characters that they spell,
/// or a failure.
pub open spec fn text_of(bytes: Seq<u8>) -> Result<Seq<char>, Error> {
    if valid_utf8(bytes) {
        Ok(decode_utf8(bytes))
    } else {
        Err(Error::TextDecodeFailure)
    }
}

impl Payload for String {
    const VERSION: i32 = 0;

    open spec fn encodable(m: Seq<char>) -> bool {
        encode_utf8(m).len() <= u64::MAX
    }

    open spec fn encoding(m: Seq<char>) -> Seq<u8> {
        u64_le_bytes(encode_utf8(m).len() as u64) + encode_utf8(m)
    }

    open spec fn decoding(input: Seq<u8>) -> (Result<Seq<char>, Error>, Seq<u8>) {
        match take_fixed(input, 8, u64_from_le_bytes(input)) {
            (Ok(len), body) => match take_bytes(body, len as nat) {
                (Ok(bytes), rest) => (text_of(bytes), rest),
                (Err(e), rest) => (Err(e), rest),
            },
            (Err(e), rest) => (Err(e), rest),
        }
    }

    proof fn lemma_payload_roundtrip(m: Seq<char>, rest: Seq<u8>) {
        let bytes = encode_utf8(m);
        let len = bytes.len() as u64;
        let body = bytes + rest;
        lemma_u64_roundtrip(len, body);
        assert(Self::encoding(m) + rest =~= u64_le_bytes(len) + body);
        assert((u64_le_bytes(len) + body).skip(8) =~= body);
        assert(body.take(len as int) =~= bytes);
        assert(body.skip(len as int) =~= rest);
        encode_utf8_valid_utf8(m);
        encode_utf8_decode_utf8(m);
    }

    fn parse_unsafe(reader: &mut Reader) -> (r: Result<Self, Error>) {
        match reader.read_u64() {
            Ok(len) => match reader.read_bytes(len) {
                Ok(bytes) => decode_text(bytes),
                Err(e) => Err(e),
            },
            Err(e) => Err(e),
        }
    }

    fn write_unsafe(writer: &mut Vec<u8>, value: &Self) -> (r: Result<(), Error>) {
        let bytes = value.as_str().as_bytes();
        match write_u64(writer, bytes.len() as u64) {
            Ok(()) => {
                let r = write_bytes(writer, bytes);
                assert(writer@ =~= old(writer)@ + Self::encoding(value.deep_view()));
                r
            },
            Err(e) => Err(e),
        }
    }
}

impl SafeCopy for String {
    type K = Primitive;
}

} // verus!
