//! The ownership wrappers: each is laid out as the value that it holds, and
//! adds no byte of its own.

use crate::dispatch::{parsed, safe_parse, safe_write, written, Kind, Payload, SafeCopy};
use crate::error::Error;
use crate::policy::Primitive;
use crate::reader::Reader;
use std::borrow::Cow;
use std::rc::Rc;
use std::sync::Arc;
use vstd::prelude::*;

verus! {

impl<T: SafeCopy> Payload for Box<T> {
    const VERSION: i32 = 0;

    open spec fn encodable(m: T::V) -> bool {
        T::encodable(m)
    }

    open spec fn encoding(m: T::V) -> Seq<u8> {
        written::<T>(m)
    }

    open spec fn decoding(input: Seq<u8>) -> (Result<T::V, Error>, Seq<u8>) {
        parsed::<T>(input)
    }

    proof fn lemma_payload_roundtrip(m: T::V, rest: Seq<u8>) {
        <T::K as Kind<T>>::lemma_roundtrip(m, rest);
    }

    fn parse_unsafe(reader: &mut Reader) -> (r: Result<Self, Error>) {
        match safe_parse::<T>(reader) {
            Ok(x) => Ok(Box::new(x)),
            Err(e) => Err(e),
        }
    }

    fn write_unsafe(writer: &mut Vec<u8>, value: &Self) -> (r: Result<(), Error>) {
        safe_write(writer, &**value)
    }
}

impl<T: SafeCopy> SafeCopy for Box<T> {
    type K = Primitive;
}

impl<T: SafeCopy> Payload for Rc<T> {
    const VERSION: i32 = 0;

    open spec fn encodable(m: T::V) -> bool {
        T::encodable(m)
    }

    open spec fn encoding(m: T::V) -> Seq<u8> {
        written::<T>(m)
    }

    open spec fn decoding(input: Seq<u8>) -> (Result<T::V, Error>, Seq<u8>) {
        parsed::<T>(input)
    }

    proof fn lemma_payload_roundtrip(m: T::V, rest: Seq<u8>) {
        <T::K as Kind<T>>::lemma_roundtrip(m, rest);
    }

    fn parse_unsafe(reader: &mut Reader) -> (r: Result<Self, Error>) {
        match safe_parse::<T>(reader) {
            Ok(x) => Ok(Rc::new(x)),
            Err(e) => Err(e),
        }
    }

    fn write_unsafe(writer: &mut Vec<u8>, value: &Self) -> (r: Result<(), Error>) {
        safe_write(writer, &**value)
    }
}

impl<T: SafeCopy> SafeCopy for Rc<T> {
    type K = Primitive;
}

impl<T: SafeCopy> Payload for Arc<T> {
    const VERSION: i32 = 0;

    open spec fn encodable(m: T::V) -> bool {
        T::encodable(m)
    }

    open spec fn encoding(m: T::V) -> Seq<u8> {
        written::<T>(m)
    }

    open spec fn decoding(input: Seq<u8>) -> (Result<T::V, Error>, Seq<u8>) {
        parsed::<T>(input)
    }

    proof fn lemma_payload_roundtrip(m: T::V, rest: Seq<u8>) {
        <T::K as Kind<T>>::lemma_roundtrip(m, rest);
    }

    fn parse_unsafe(reader: &mut Reader) -> (r: Result<Self, Error>) {
        match safe_parse::<T>(reader) {
            Ok(x) => Ok(Arc::new(x)),
            Err(e) => Err(e),
        }
    }

    fn write_unsafe(writer: &mut Vec<u8>, value: &Self) -> (r: Result<(), Error>) {
        safe_write(writer, &**value)
    }
}

impl<T: SafeCopy> SafeCopy for Arc<T> {
    type K = Primitive;
}

impl<'a, T: SafeCopy + Clone> Payload for Cow<'a, T> {
    const VERSION: i32 = 0;

    open spec fn encodable(m: T::V) -> bool {
        T::encodable(m)
    }

    open spec fn encoding(m: T::V) -> Seq<u8> {
        written::<T>(m)
    }

    open spec fn decoding(input: Seq<u8>) -> (Result<T::V, Error>, Seq<u8>) {
        parsed::<T>(input)
    }

    proof fn lemma_payload_roundtrip(m: T::V, rest: Seq<u8>) {
        <T::K as Kind<T>>::lemma_roundtrip(m, rest);
    }

    fn parse_unsafe(reader: &mut Reader) -> (r: Result<Self, Error>) {
        match safe_parse::<T>(reader) {
            Ok(x) => Ok(Cow::Owned(x)),
            Err(e) => Err(e),
        }
    }

    fn write_unsafe(writer: &mut Vec<u8>, value: &Self) -> (r: Result<(), Error>) {
        match value {
            Cow::Borrowed(inner) => safe_write(writer, *inner),
            Cow::Owned(inner) => safe_write(writer, inner),
        }
    }
}

impl<'a, T: SafeCopy + Clone> SafeCopy for Cow<'a, T> {
    type K = Primitive;
}

} // verus!
