//! The three versioning policies.

use crate::codec::{take_fixed, write_i32};
use crate::dispatch::{Kind, Migrate, Payload, SafeCopy};
use crate::error::Error;
use crate::reader::Reader;
use crate::wire::{i32_from_le_bytes, i32_le_bytes, lemma_i32_roundtrip};
use vstd::prelude::*;

verus! {

/// What reading a version tag makes of `input`.
pub open spec fn take_tag(input: Seq<u8>) -> (Result<i32, Error>, Seq<u8>) {
    take_fixed(input, 4, i32_from_le_bytes(input))
}

/// The unversioned policy: the payload alone, with no tag.
pub struct Primitive;

/// The current-only policy: a version tag that must be the version of the
/// type, then the payload.
pub struct Base;

/// The migrating policy: a version tag, then the payload of the current
/// shape or of an older one, which starts at `B`.
pub struct Extended<B>(std::marker::PhantomData<B>);

impl<A: Payload> Kind<A> for Primitive {
    open spec fn framed(m: A::V) -> Seq<u8> {
        A::encoding(m)
    }

    open spec fn unframed(input: Seq<u8>) -> (Result<A::V, Error>, Seq<u8>) {
        A::decoding(input)
    }

    open spec fn unframed_at(tag: i32, input: Seq<u8>) -> (Result<A::V, Error>, Seq<u8>) {
        (Err(Error::UnsupportedMigration), input)
    }

    open spec fn versions() -> Seq<i32> {
        Seq::empty()
    }

    open spec fn refusal() -> Error {
        Error::UnsupportedMigration
    }

    proof fn lemma_unknown_version(tag: i32, input: Seq<u8>) {
    }

    proof fn lemma_roundtrip(m: A::V, rest: Seq<u8>) {
        A::lemma_payload_roundtrip(m, rest);
    }

    fn safe_parse(reader: &mut Reader) -> (r: Result<A, Error>) {
        A::parse_unsafe(reader)
    }

    fn safe_parse_versioned(_v: i32, _reader: &mut Reader) -> (r: Result<A, Error>) {
        Err(Error::UnsupportedMigration)
    }

    fn safe_write(writer: &mut Vec<u8>, value: &A) -> (r: Result<(), Error>) {
        A::write_unsafe(writer, value)
    }
}

impl<A: Payload> Kind<A> for Base {
    open spec fn framed(m: A::V) -> Seq<u8> {
        i32_le_bytes(A::VERSION) + A::encoding(m)
    }

    open spec fn unframed(input: Seq<u8>) -> (Result<A::V, Error>, Seq<u8>) {
        match take_tag(input) {
            (Ok(tag), rest) => <Self as Kind<A>>::unframed_at(tag, rest),
            (Err(e), rest) => (Err(e), rest),
        }
    }

    open spec fn unframed_at(tag: i32, input: Seq<u8>) -> (Result<A::V, Error>, Seq<u8>) {
        if tag == A::VERSION {
            A::decoding(input)
        } else {
            (Err(Error::VersionMismatch), input)
        }
    }

    open spec fn versions() -> Seq<i32> {
        seq![A::VERSION]
    }

    open spec fn refusal() -> Error {
        Error::VersionMismatch
    }

    proof fn lemma_unknown_version(tag: i32, input: Seq<u8>) {
        assert(seq![A::VERSION][0] == A::VERSION);
    }

    proof fn lemma_roundtrip(m: A::V, rest: Seq<u8>) {
        let payload = A::encoding(m) + rest;
        lemma_i32_roundtrip(A::VERSION, payload);
        assert(<Self as Kind<A>>::framed(m) + rest =~= i32_le_bytes(A::VERSION) + payload);
        assert((i32_le_bytes(A::VERSION) + payload).skip(4) =~= payload);
        A::lemma_payload_roundtrip(m, rest);
    }

    fn safe_parse(reader: &mut Reader) -> (r: Result<A, Error>) {
        match reader.read_i32() {
            Ok(v) => Self::safe_parse_versioned(v, reader),
            Err(e) => Err(e),
        }
    }

    fn safe_parse_versioned(v: i32, reader: &mut Reader) -> (r: Result<A, Error>) {
        if v == A::VERSION {
            A::parse_unsafe(reader)
        } else {
            Err(Error::VersionMismatch)
        }
    }

    fn safe_write(writer: &mut Vec<u8>, value: &A) -> (r: Result<(), Error>) {
        match write_i32(writer, A::VERSION) {
            Ok(()) => {
                let r = A::write_unsafe(writer, value);
                assert(writer@ =~= old(writer)@ + <Self as Kind<A>>::framed(value.deep_view()));
                r
            },
            Err(e) => Err(e),
        }
    }
}

impl<A: Payload + Migrate<B>, B: SafeCopy> Kind<A> for Extended<B> {
    open spec fn framed(m: A::V) -> Seq<u8> {
        i32_le_bytes(A::VERSION) + A::encoding(m)
    }

    open spec fn unframed(input: Seq<u8>) -> (Result<A::V, Error>, Seq<u8>) {
        match take_tag(input) {
            (Ok(tag), rest) => <Self as Kind<A>>::unframed_at(tag, rest),
            (Err(e), rest) => (Err(e), rest),
        }
    }

    open spec fn unframed_at(tag: i32, input: Seq<u8>) -> (Result<A::V, Error>, Seq<u8>) {
        if tag == A::VERSION {
            A::decoding(input)
        } else {
            match <B::K as Kind<B>>::unframed_at(tag, input) {
                (Ok(older), rest) => (Ok(A::migrated(older)), rest),
                (Err(e), rest) => (Err(e), rest),
            }
        }
    }

    open spec fn versions() -> Seq<i32> {
        seq![A::VERSION] + <B::K as Kind<B>>::versions()
    }

    open spec fn refusal() -> Error {
        <B::K as Kind<B>>::refusal()
    }

    proof fn lemma_unknown_version(tag: i32, input: Seq<u8>) {
        let older = <B::K as Kind<B>>::versions();
        let all = seq![A::VERSION] + older;
        assert(all[0] == A::VERSION);
        assert forall|i: int| 0 <= i < older.len() implies older[i] != tag by {
            assert(all[i + 1] == older[i]);
        }
        <B::K as Kind<B>>::lemma_unknown_version(tag, input);
    }

    proof fn lemma_roundtrip(m: A::V, rest: Seq<u8>) {
        let payload = A::encoding(m) + rest;
        lemma_i32_roundtrip(A::VERSION, payload);
        assert(<Self as Kind<A>>::framed(m) + rest =~= i32_le_bytes(A::VERSION) + payload);
        assert((i32_le_bytes(A::VERSION) + payload).skip(4) =~= payload);
        A::lemma_payload_roundtrip(m, rest);
    }

    fn safe_parse(reader: &mut Reader) -> (r: Result<A, Error>) {
        match reader.read_i32() {
            Ok(v) => Self::safe_parse_versioned(v, reader),
            Err(e) => Err(e),
        }
    }

    fn safe_parse_versioned(v: i32, reader: &mut Reader) -> (r: Result<A, Error>) {
        if v == A::VERSION {
            A::parse_unsafe(reader)
        } else {
            match B::K::safe_parse_versioned(v, reader) {
                Ok(older) => Ok(A::migrate(older)),
                Err(e) => Err(e),
            }
        }
    }

    fn safe_write(writer: &mut Vec<u8>, value: &A) -> (r: Result<(), Error>) {
        match write_i32(writer, A::VERSION) {
            Ok(()) => {
                let r = A::write_unsafe(writer, value);
                assert(writer@ =~= old(writer)@ + <Self as Kind<A>>::framed(value.deep_view()));
                r
            },
            Err(e) => Err(e),
        }
    }
}

} // verus!
