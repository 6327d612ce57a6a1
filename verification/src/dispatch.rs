//! What a serializable type provides, and the two entry points that read and
//! write a value through the policy of its type.

use crate::error::Error;
use crate::reader::Reader;
use vstd::prelude::*;

verus! {

/// Whether the outcome `r` of a read shows what the wire format prescribes:
/// a value with the prescribed model, or the prescribed error.
pub open spec fn shows<T: DeepView>(r: Result<T, Error>, prescribed: Result<T::V, Error>) -> bool {
    match prescribed {
        Ok(m) => r is Ok && r->Ok_0.deep_view() == m,
        Err(e) => r == Err::<T, Error>(e),
    }
}

/// The payload codec of a type: its version number and how a value of it is
/// laid out on the wire, without any version tag.
///
/// The wire format is stated over the model of a value, its deep view.
pub trait Payload: Sized + DeepView {
    /// The version of the current shape of the type.
    const VERSION: i32;

    /// Whether the wire format has room for a value with model `m`. Every
    /// value that can be written has such a model.
    spec fn encodable(m: Self::V) -> bool;

    /// The payload bytes of a value with model `m`.
    spec fn encoding(m: Self::V) -> Seq<u8>;

    /// What decoding a payload from the front of `input` gives: the model of
    /// the value or the error, and the input that is left behind it.
    spec fn decoding(input: Seq<u8>) -> (Result<Self::V, Error>, Seq<u8>);

    /// Decoding the payload of a value gives the value back and leaves what
    /// followed the payload.
    proof fn lemma_payload_roundtrip(m: Self::V, rest: Seq<u8>)
        requires
            Self::encodable(m),
        ensures
            Self::decoding(Self::encoding(m) + rest) == (Ok::<Self::V, Error>(m), rest),
    ;

    /// Reads a payload from `reader`.
    fn parse_unsafe(reader: &mut Reader) -> (r: Result<Self, Error>)
        ensures
            shows(r, Self::decoding(old(reader)@).0),
            final(reader)@ == Self::decoding(old(reader)@).1,
    ;

    /// Appends the payload of `value` to `writer`.
    fn write_unsafe(writer: &mut Vec<u8>, value: &Self) -> (r: Result<(), Error>)
        ensures
            r is Ok,
            Self::encodable(value.deep_view()),
            final(writer)@ == old(writer)@ + Self::encoding(value.deep_view()),
    ;
}

/// A versioning policy: how a value of `A` is framed on the wire.
pub trait Kind<A: Payload> {
    /// The wire bytes of a value with model `m`.
    spec fn framed(m: A::V) -> Seq<u8>;

    /// What reading a value from the front of `input` gives, and the input
    /// that is left.
    spec fn unframed(input: Seq<u8>) -> (Result<A::V, Error>, Seq<u8>);

    /// What reading a value gives once the version tag `tag` has been taken
    /// off the input, and the input that is left.
    spec fn unframed_at(tag: i32, input: Seq<u8>) -> (Result<A::V, Error>, Seq<u8>);

    /// The version tags that the policy accepts, newest first: that of `A`
    /// and those of the older shapes behind it, or none where the policy
    /// writes no tag.
    spec fn versions() -> Seq<i32>;

    /// The error with which the policy refuses a tag that is none of its
    /// versions.
    spec fn refusal() -> Error;

    /// A tag that is none of the versions of the policy is refused, and
    /// nothing is read.
    proof fn lemma_unknown_version(tag: i32, input: Seq<u8>)
        requires
            !Self::versions().contains(tag),
        ensures
            Self::unframed_at(tag, input) == (Err::<A::V, Error>(Self::refusal()), input),
    ;

    /// Reading the wire bytes of a value gives the value back and leaves what
    /// followed them.
    proof fn lemma_roundtrip(m: A::V, rest: Seq<u8>)
        requires
            A::encodable(m),
        ensures
            Self::unframed(Self::framed(m) + rest) == (Ok::<A::V, Error>(m), rest),
    ;

    /// Reads a value from `reader`.
    fn safe_parse(reader: &mut Reader) -> (r: Result<A, Error>)
        ensures
            shows(r, Self::unframed(old(reader)@).0),
            final(reader)@ == Self::unframed(old(reader)@).1,
    ;

    /// Reads a value from `reader`, from which the version tag `v` has been
    /// read already.
    fn safe_parse_versioned(v: i32, reader: &mut Reader) -> (r: Result<A, Error>)
        ensures
            shows(r, Self::unframed_at(v, old(reader)@).0),
            final(reader)@ == Self::unframed_at(v, old(reader)@).1,
    ;

    /// Appends the wire bytes of `value` to `writer`.
    fn safe_write(writer: &mut Vec<u8>, value: &A) -> (r: Result<(), Error>)
        ensures
            r is Ok,
            A::encodable(value.deep_view()),
            final(writer)@ == old(writer)@ + Self::framed(value.deep_view()),
    ;
}

/// A serializable type: a payload codec together with the policy that frames
/// it.
pub trait SafeCopy: Payload {
    /// The policy of the type.
    type K: Kind<Self>;
}

/// The one-way conversion of an older shape `B` into the current one.
pub trait Migrate<B: DeepView>: Sized + DeepView {
    /// The model of the value that a value with model `older` becomes.
    spec fn migrated(older: B::V) -> Self::V;

    /// Converts a value of the older shape.
    fn migrate(older: B) -> (newer: Self)
        ensures
            newer.deep_view() == Self::migrated(older.deep_view()),
    ;
}

/// The wire bytes of a value of `A` with model `m`, under the policy of `A`.
pub open spec fn written<A: SafeCopy>(m: A::V) -> Seq<u8> {
    <A::K as Kind<A>>::framed(m)
}

/// What reading a value of `A` from the front of `input` gives under the
/// policy of `A`, and the input that is left.
pub open spec fn parsed<A: SafeCopy>(input: Seq<u8>) -> (Result<A::V, Error>, Seq<u8>) {
    <A::K as Kind<A>>::unframed(input)
}

/// Reads a value of `A` from `reader`, through the policy of `A`.
pub fn safe_parse<A: SafeCopy>(reader: &mut Reader) -> (r: Result<A, Error>)
    ensures
        shows(r, parsed::<A>(old(reader)@).0),
        final(reader)@ == parsed::<A>(old(reader)@).1,
{
    A::K::safe_parse(reader)
}

/// Appends `value` to `writer`, through the policy of its type.
pub fn safe_write<A: SafeCopy>(writer: &mut Vec<u8>, value: &A) -> (r: Result<(), Error>)
    ensures
        r is Ok,
        A::encodable(value.deep_view()),
        final(writer)@ == old(writer)@ + written::<A>(value.deep_view()),
{
    A::K::safe_write(writer, value)
}

} // verus!
