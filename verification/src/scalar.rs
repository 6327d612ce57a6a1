//! The fixed-width integers: unversioned, laid out as the primitive codec
//! lays them out.

use crate::codec::{take_fixed, write_i32, write_i64};
use crate::dispatch::{Payload, SafeCopy};
use crate::error::Error;
use crate::policy::Primitive;
use crate::reader::Reader;
use crate::wire::{
    i32_from_le_bytes, i32_le_bytes, i64_from_le_bytes, i64_le_bytes, lemma_i32_roundtrip,
    lemma_i64_roundtrip,
};
use vstd::prelude::*;

verus! {

impl Payload for i32 {
    const VERSION: i32 = 0;

    open spec fn encodable(m: i32) -> bool {
        true
    }

    open spec fn encoding(m: i32) -> Seq<u8> {
        i32_le_bytes(m)
    }

    open spec fn decoding(input: Seq<u8>) -> (Result<i32, Error>, Seq<u8>) {
        take_fixed(input, 4, i32_from_le_bytes(input))
    }

    proof fn lemma_payload_roundtrip(m: i32, rest: Seq<u8>) {
        lemma_i32_roundtrip(m, rest);
        assert((i32_le_bytes(m) + rest).skip(4) =~= rest);
    }

    fn parse_unsafe(reader: &mut Reader) -> (r: Result<Self, Error>) {
        reader.read_i32()
    }

    fn write_unsafe(writer: &mut Vec<u8>, value: &Self) -> (r: Result<(), Error>) {
        write_i32(writer, *value)
    }
}

impl SafeCopy for i32 {
    type K = Primitive;
}

impl Payload for i64 {
    const VERSION: i32 = 0;

    open spec fn encodable(m: i64) -> bool {
        true
    }

    open spec fn encoding(m: i64) -> Seq<u8> {
        i64_le_bytes(m)
    }

    open spec fn decoding(input: Seq<u8>) -> (Result<i64, Error>, Seq<u8>) {
        take_fixed(input, 8, i64_from_le_bytes(input))
    }

    proof fn lemma_payload_roundtrip(m: i64, rest: Seq<u8>) {
        lemma_i64_roundtrip(m, rest);
        assert((i64_le_bytes(m) + rest).skip(8) =~= rest);
    }

    fn parse_unsafe(reader: &mut Reader) -> (r: Result<Self, Error>) {
        reader.read_i64()
    }

    fn write_unsafe(writer: &mut Vec<u8>, value: &Self) -> (r: Result<(), Error>) {
        write_i64(writer, *value)
    }
}

impl SafeCopy for i64 {
    type K = Primitive;
}

} // verus!
