//! The primitive codec: fixed-width integers and raw bytes, written to a
//! byte buffer and read from a byte slice by `bincode`.
//!
//! The functions that call `bincode` are not verified: each one states what
//! `bincode` does, in terms of the layouts of [`crate::wire`], and the rest
//! of the library is proved from those statements.

use crate::error::Error;
use crate::wire::{
    i16_le_bytes, i32_from_le_bytes, i32_le_bytes, i64_from_le_bytes, i64_le_bytes,
    u64_from_le_bytes, u64_le_bytes,
};
use vstd::prelude::*;

verus! {

/// `bincode::ErrorKind`, the error of `bincode`: it is handed on as it
/// comes and never looked into.
#[verifier::external_type_specification]
#[verifier::external_body]
pub struct ExErrorKind(bincode::ErrorKind);

/// `std::string::FromUtf8Error`, the error of `String::from_utf8`: it is
/// handed on as it comes and never looked into.
#[verifier::external_type_specification]
#[verifier::external_body]
pub struct ExFromUtf8Error(std::string::FromUtf8Error);

/// `bincode::serialize_into` with a `u8`, a `Vec<u8>` as the writer and no
/// size limit: appends the byte itself and succeeds.
#[verifier::external_body]
fn serialize_u8(out: &mut Vec<u8>, v: u8) -> (r: Result<(), Box<bincode::ErrorKind>>)
    ensures
        r is Ok,
        final(out)@ == old(out)@ + seq![v],
{
    bincode::serialize_into(out, &v, bincode::Infinite)
}

/// `bincode::serialize_into` with an `i16`, a `Vec<u8>` as the writer and no
/// size limit: appends the two bytes of the integer, lowest first, and
/// succeeds.
#[verifier::external_body]
fn serialize_i16(out: &mut Vec<u8>, v: i16) -> (r: Result<(), Box<bincode::ErrorKind>>)
    ensures
        r is Ok,
        final(out)@ == old(out)@ + i16_le_bytes(v),
{
    bincode::serialize_into(out, &v, bincode::Infinite)
}

/// `bincode::serialize_into` with an `i32`, a `Vec<u8>` as the writer and no
/// size limit: appends the four bytes of the integer, lowest first, and
/// succeeds.
#[verifier::external_body]
fn serialize_i32(out: &mut Vec<u8>, v: i32) -> (r: Result<(), Box<bincode::ErrorKind>>)
    ensures
        r is Ok,
        final(out)@ == old(out)@ + i32_le_bytes(v),
{
    bincode::serialize_into(out, &v, bincode::Infinite)
}

/// `bincode::serialize_into` with an `i64`, a `Vec<u8>` as the writer and no
/// size limit: appends the eight bytes of the integer, lowest first, and
/// succeeds.
#[verifier::external_body]
fn serialize_i64(out: &mut Vec<u8>, v: i64) -> (r: Result<(), Box<bincode::ErrorKind>>)
    ensures
        r is Ok,
        final(out)@ == old(out)@ + i64_le_bytes(v),
{
    bincode::serialize_into(out, &v, bincode::Infinite)
}

/// `bincode::serialize_into` with a `u64`, a `Vec<u8>` as the writer and no
/// size limit: appends the eight bytes of the integer, lowest first, and
/// succeeds.
#[verifier::external_body]
fn serialize_u64(out: &mut Vec<u8>, v: u64) -> (r: Result<(), Box<bincode::ErrorKind>>)
    ensures
        r is Ok,
        final(out)@ == old(out)@ + u64_le_bytes(v),
{
    bincode::serialize_into(out, &v, bincode::Infinite)
}

/// `bincode::deserialize_from` for a `u8`, with a byte slice as the reader
/// and no size limit: the first byte, or an error where the slice is empty.
#[verifier::external_body]
fn deserialize_u8(bytes: &[u8]) -> (r: Result<u8, Box<bincode::ErrorKind>>)
    ensures
        bytes@.len() >= 1 ==> r is Ok && r->Ok_0 == bytes@[0],
        bytes@.len() < 1 ==> r is Err,
{
    let mut source: &[u8] = bytes;
    bincode::deserialize_from(&mut source, bincode::Infinite)
}

/// `bincode::deserialize_from` for an `i32`, with a byte slice as the reader
/// and no size limit: the integer that the first four bytes hold, lowest
/// first, or an error where the slice is shorter.
#[verifier::external_body]
fn deserialize_i32(bytes: &[u8]) -> (r: Result<i32, Box<bincode::ErrorKind>>)
    ensures
        bytes@.len() >= 4 ==> r is Ok && r->Ok_0 == i32_from_le_bytes(bytes@),
        bytes@.len() < 4 ==> r is Err,
{
    let mut source: &[u8] = bytes;
    bincode::deserialize_from(&mut source, bincode::Infinite)
}

/// `bincode::deserialize_from` for an `i64`, with a byte slice as the reader
/// and no size limit: the integer that the first eight bytes hold, lowest
/// first, or an error where the slice is shorter.
#[verifier::external_body]
fn deserialize_i64(bytes: &[u8]) -> (r: Result<i64, Box<bincode::ErrorKind>>)
    ensures
        bytes@.len() >= 8 ==> r is Ok && r->Ok_0 == i64_from_le_bytes(bytes@),
        bytes@.len() < 8 ==> r is Err,
{
    let mut source: &[u8] = bytes;
    bincode::deserialize_from(&mut source, bincode::Infinite)
}

/// `bincode::deserialize_from` for a `u64`, with a byte slice as the reader
/// and no size limit: the integer that the first eight bytes hold, lowest
/// first, or an error where the slice is shorter.
#[verifier::external_body]
fn deserialize_u64(bytes: &[u8]) -> (r: Result<u64, Box<bincode::ErrorKind>>)
    ensures
        bytes@.len() >= 8 ==> r is Ok && r->Ok_0 == u64_from_le_bytes(bytes@),
        bytes@.len() < 8 ==> r is Err,
{
    let mut source: &[u8] = bytes;
    bincode::deserialize_from(&mut source, bincode::Infinite)
}

/// `String::from_utf8`: the text that the bytes spell in UTF-8, or an error
/// where they are not valid UTF-8.
#[verifier::external_body]
fn string_from_utf8(bytes: Vec<u8>) -> (r: Result<String, std::string::FromUtf8Error>)
    ensures
        r is Ok <==> vstd::utf8::valid_utf8(bytes@),
        r is Ok ==> r->Ok_0@ == vstd::utf8::decode_utf8(bytes@),
{
    String::from_utf8(bytes)
}

/// What reading one integer of `width` bytes makes of `input`: the value that
/// `value` finds in the bytes and the input behind them, or a failure that
/// leaves the input where it was.
pub open spec fn take_fixed<T>(input: Seq<u8>, width: nat, value: T) -> (Result<T, Error>, Seq<u8>) {
    if input.len() >= width {
        (Ok(value), input.skip(width as int))
    } else {
        (Err(Error::UnderlyingIoFailure), input)
    }
}

/// Appends one byte to `writer`.
pub fn write_u8(writer: &mut Vec<u8>, v: u8) -> (r: Result<(), Error>)
    ensures
        r is Ok,
        final(writer)@ == old(writer)@ + seq![v],
{
    match serialize_u8(writer, v) {
        Ok(()) => Ok(()),
        Err(_) => Err(Error::UnderlyingIoFailure),
    }
}

/// Appends the two bytes of `v` to `writer`, lowest first.
pub fn write_i16(writer: &mut Vec<u8>, v: i16) -> (r: Result<(), Error>)
    ensures
        r is Ok,
        final(writer)@ == old(writer)@ + i16_le_bytes(v),
{
    match serialize_i16(writer, v) {
        Ok(()) => Ok(()),
        Err(_) => Err(Error::UnderlyingIoFailure),
    }
}

/// Appends the four bytes of `v` to `writer`, lowest first.
pub fn write_i32(writer: &mut Vec<u8>, v: i32) -> (r: Result<(), Error>)
    ensures
        r is Ok,
        final(writer)@ == old(writer)@ + i32_le_bytes(v),
{
    match serialize_i32(writer, v) {
        Ok(()) => Ok(()),
        Err(_) => Err(Error::UnderlyingIoFailure),
    }
}

/// Appends the eight bytes of `v` to `writer`, lowest first.
pub fn write_i64(writer: &mut Vec<u8>, v: i64) -> (r: Result<(), Error>)
    ensures
        r is Ok,
        final(writer)@ == old(writer)@ + i64_le_bytes(v),
{
    match serialize_i64(writer, v) {
        Ok(()) => Ok(()),
        Err(_) => Err(Error::UnderlyingIoFailure),
    }
}

/// Appends the eight bytes of `v` to `writer`, lowest first.
pub fn write_u64(writer: &mut Vec<u8>, v: u64) -> (r: Result<(), Error>)
    ensures
        r is Ok,
        final(writer)@ == old(writer)@ + u64_le_bytes(v),
{
    match serialize_u64(writer, v) {
        Ok(()) => Ok(()),
        Err(_) => Err(Error::UnderlyingIoFailure),
    }
}

/// Appends `bytes` to `writer` as they are.
pub fn write_bytes(writer: &mut Vec<u8>, bytes: &[u8]) -> (r: Result<(), Error>)
    ensures
        r is Ok,
        final(writer)@ == old(writer)@ + bytes@,
{
    writer.extend_from_slice(bytes);
    assert(writer@ =~= old(writer)@ + bytes@);
    Ok(())
}

/// The `u8` at the head of `bytes`.
pub fn decode_u8(bytes: &[u8]) -> (r: Result<u8, Error>)
    ensures
        r == take_fixed(bytes@, 1, bytes@[0]).0,
{
    match deserialize_u8(bytes) {
        Ok(v) => Ok(v),
        Err(_) => Err(Error::UnderlyingIoFailure),
    }
}

/// The `i32` at the head of `bytes`.
pub fn decode_i32(bytes: &[u8]) -> (r: Result<i32, Error>)
    ensures
        r == take_fixed(bytes@, 4, i32_from_le_bytes(bytes@)).0,
{
    match deserialize_i32(bytes) {
        Ok(v) => Ok(v),
        Err(_) => Err(Error::UnderlyingIoFailure),
    }
}

/// The `i64` at the head of `bytes`.
pub fn decode_i64(bytes: &[u8]) -> (r: Result<i64, Error>)
    ensures
        r == take_fixed(bytes@, 8, i64_from_le_bytes(bytes@)).0,
{
    match deserialize_i64(bytes) {
        Ok(v) => Ok(v),
        Err(_) => Err(Error::UnderlyingIoFailure),
    }
}

/// The `u64` at the head of `bytes`.
pub fn decode_u64(bytes: &[u8]) -> (r: Result<u64, Error>)
    ensures
        r == take_fixed(bytes@, 8, u64_from_le_bytes(bytes@)).0,
{
    match deserialize_u64(bytes) {
        Ok(v) => Ok(v),
        Err(_) => Err(Error::UnderlyingIoFailure),
    }
}

/// The text that `bytes` spell in UTF-8.
pub fn decode_text(bytes: Vec<u8>) -> (r: Result<String, Error>)
    ensures
        vstd::utf8::valid_utf8(bytes@) ==> r is Ok && r->Ok_0@ == vstd::utf8::decode_utf8(bytes@),
        !vstd::utf8::valid_utf8(bytes@) ==> r == Err::<String, Error>(Error::TextDecodeFailure),
{
    match string_from_utf8(bytes) {
        Ok(s) => Ok(s),
        Err(_) => Err(Error::TextDecodeFailure),
    }
}

} // verus!
