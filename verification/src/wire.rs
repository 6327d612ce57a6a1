//! The byte layout of fixed-width integers: little-endian, two's complement.

use vstd::prelude::*;

verus! {

/// The lowest byte of `v` in two's complement.
pub open spec fn low_byte(v: int) -> u8 {
    (v % 256) as u8
}

/// The two bytes of a 16-bit integer, lowest first.
pub open spec fn le_bytes_2(v: int) -> Seq<u8> {
    seq![low_byte(v), low_byte(v / 256)]
}

/// The four bytes of a 32-bit integer, lowest first.
pub open spec fn le_bytes_4(v: int) -> Seq<u8> {
    let v1 = v / 256;
    let v2 = v1 / 256;
    let v3 = v2 / 256;
    seq![low_byte(v), low_byte(v1), low_byte(v2), low_byte(v3)]
}

/// The eight bytes of a 64-bit integer, lowest first.
pub open spec fn le_bytes_8(v: int) -> Seq<u8> {
    let v1 = v / 256;
    let v2 = v1 / 256;
    let v3 = v2 / 256;
    let v4 = v3 / 256;
    let v5 = v4 / 256;
    let v6 = v5 / 256;
    let v7 = v6 / 256;
    seq![
        low_byte(v),
        low_byte(v1),
        low_byte(v2),
        low_byte(v3),
        low_byte(v4),
        low_byte(v5),
        low_byte(v6),
        low_byte(v7),
    ]
}

/// The unsigned number that the first four bytes of `b` spell, lowest first.
pub open spec fn le_value_4(b: Seq<u8>) -> int {
    b[0] + 256 * (b[1] + 256 * (b[2] + 256 * b[3]))
}

/// The unsigned number that the first eight bytes of `b` spell, lowest first.
pub open spec fn le_value_8(b: Seq<u8>) -> int {
    b[0] + 256 * (b[1] + 256 * (b[2] + 256 * (b[3] + 256 * (b[4] + 256 * (b[5] + 256 * (b[6] + 256
        * b[7]))))))
}

/// The signed reading of an unsigned number below `2 * half`.
pub open spec fn signed(u: int, half: int) -> int {
    if u >= half {
        u - 2 * half
    } else {
        u
    }
}

/// The wire bytes of a 16-bit signed integer.
pub open spec fn i16_le_bytes(v: i16) -> Seq<u8> {
    le_bytes_2(v as int)
}

/// The wire bytes of a 32-bit signed integer.
pub open spec fn i32_le_bytes(v: i32) -> Seq<u8> {
    le_bytes_4(v as int)
}

/// The 32-bit signed integer that four wire bytes hold.
pub open spec fn i32_from_le_bytes(b: Seq<u8>) -> i32
    recommends
        b.len() >= 4,
{
    signed(le_value_4(b), 0x8000_0000) as i32
}

/// The wire bytes of a 64-bit signed integer.
pub open spec fn i64_le_bytes(v: i64) -> Seq<u8> {
    le_bytes_8(v as int)
}

/// The 64-bit signed integer that eight wire bytes hold.
pub open spec fn i64_from_le_bytes(b: Seq<u8>) -> i64
    recommends
        b.len() >= 8,
{
    signed(le_value_8(b), 0x8000_0000_0000_0000) as i64
}

/// The wire bytes of a 64-bit unsigned integer.
pub open spec fn u64_le_bytes(v: u64) -> Seq<u8> {
    le_bytes_8(v as int)
}

/// The 64-bit unsigned integer that eight wire bytes hold.
pub open spec fn u64_from_le_bytes(b: Seq<u8>) -> u64
    recommends
        b.len() >= 8,
{
    le_value_8(b) as u64
}

/// Reading back the bytes of a 32-bit integer gives the integer, whatever
/// follows them.
pub proof fn lemma_i32_roundtrip(v: i32, rest: Seq<u8>)
    ensures
        i32_le_bytes(v).len() == 4,
        i32_from_le_bytes(i32_le_bytes(v) + rest) == v,
{
}

/// Reading back the bytes of a 64-bit signed integer gives the integer,
/// whatever follows them.
pub proof fn lemma_i64_roundtrip(v: i64, rest: Seq<u8>)
    ensures
        i64_le_bytes(v).len() == 8,
        i64_from_le_bytes(i64_le_bytes(v) + rest) == v,
{
}

/// Reading back the bytes of a 64-bit unsigned integer gives the integer,
/// whatever follows them.
pub proof fn lemma_u64_roundtrip(v: u64, rest: Seq<u8>)
    ensures
        u64_le_bytes(v).len() == 8,
        u64_from_le_bytes(u64_le_bytes(v) + rest) == v,
{
}

} // verus!
