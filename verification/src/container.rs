//! The containers: unversioned themselves, they hand each value that they
//! hold to the policy of its own type.

use crate::codec::{take_fixed, write_u64, write_u8};
use crate::dispatch::{parsed, safe_parse, safe_write, written, Kind, Payload, SafeCopy};
use crate::error::Error;
use crate::policy::Primitive;
use crate::reader::Reader;
use crate::wire::{lemma_u64_roundtrip, u64_from_le_bytes, u64_le_bytes};
use vstd::prelude::*;

verus! {

/// What turning the outcome of reading a `T` into an optional value gives.
pub open spec fn present<V>(inner: (Result<V, Error>, Seq<u8>)) -> (Result<Option<V>, Error>, Seq<u8>) {
    match inner {
        (Ok(m), rest) => (Ok(Some(m)), rest),
        (Err(e), rest) => (Err(e), rest),
    }
}

impl<T: SafeCopy> Payload for Option<T> {
    const VERSION: i32 = 0;

    open spec fn encodable(m: Option<T::V>) -> bool {
        match m {
            Some(x) => T::encodable(x),
            None => true,
        }
    }

    open spec fn encoding(m: Option<T::V>) -> Seq<u8> {
        match m {
            Some(x) => seq![1u8] + written::<T>(x),
            None => seq![0u8],
        }
    }

    open spec fn decoding(input: Seq<u8>) -> (Result<Option<T::V>, Error>, Seq<u8>) {
        match take_fixed(input, 1, input[0]) {
            (Ok(tag), rest) => if tag == 0 {
                (Ok(None), rest)
            } else if tag == 1 {
                present(parsed::<T>(rest))
            } else {
                (Err(Error::MalformedTag), rest)
            },
            (Err(e), rest) => (Err(e), rest),
        }
    }

    proof fn lemma_payload_roundtrip(m: Option<T::V>, rest: Seq<u8>) {
        match m {
            Some(x) => {
                let body = written::<T>(x) + rest;
                assert(Self::encoding(m) + rest =~= seq![1u8] + body);
                assert((seq![1u8] + body).skip(1) =~= body);
                <T::K as Kind<T>>::lemma_roundtrip(x, rest);
            },
            None => {
                assert((seq![0u8] + rest).skip(1) =~= rest);
            },
        }
    }

    fn parse_unsafe(reader: &mut Reader) -> (r: Result<Self, Error>) {
        match reader.read_u8() {
            Ok(tag) => {
                if tag == 0 {
                    Ok(None)
                } else if tag == 1 {
                    match safe_parse::<T>(reader) {
                        Ok(x) => Ok(Some(x)),
                        Err(e) => Err(e),
                    }
                } else {
                    Err(Error::MalformedTag)
                }
            },
            Err(e) => Err(e),
        }
    }

    fn write_unsafe(writer: &mut Vec<u8>, value: &Self) -> (r: Result<(), Error>) {
        match value {
            None => write_u8(writer, 0),
            Some(x) => match write_u8(writer, 1) {
                Ok(()) => {
                    let r = safe_write(writer, x);
                    assert(writer@ =~= old(writer)@ + Self::encoding(value.deep_view()));
                    r
                },
                Err(e) => Err(e),
            },
        }
    }
}

impl<T: SafeCopy> SafeCopy for Option<T> {
    type K = Primitive;
}

/// The wire bytes of the items of a sequence, one after the other.
pub open spec fn items_written<T: SafeCopy>(items: Seq<T::V>) -> Seq<u8>
    decreases items.len(),
{
    if items.len() == 0 {
        Seq::empty()
    } else {
        written::<T>(items[0]) + items_written::<T>(items.skip(1))
    }
}

/// What reading `count` items from the front of `input` gives: the models of
/// the items in order, or the first error, and the input that is left.
pub open spec fn items_parsed<T: SafeCopy>(count: nat, input: Seq<u8>) -> (
    Result<Seq<T::V>, Error>,
    Seq<u8>,
)
    decreases count,
{
    if count == 0 {
        (Ok(Seq::empty()), input)
    } else {
        match parsed::<T>(input) {
            (Ok(first), rest) => match items_parsed::<T>((count - 1) as nat, rest) {
                (Ok(others), left) => (Ok(seq![first] + others), left),
                (Err(e), left) => (Err(e), left),
            },
            (Err(e), rest) => (Err(e), rest),
        }
    }
}

/// Whether every item of a sequence can be written.
pub open spec fn items_encodable<T: SafeCopy>(items: Seq<T::V>) -> bool {
    forall|i: int| 0 <= i < items.len() ==> T::encodable(#[trigger] items[i])
}

/// Reading as many items as were written gives the items back and leaves
/// what followed them.
pub proof fn lemma_items_roundtrip<T: SafeCopy>(items: Seq<T::V>, rest: Seq<u8>)
    requires
        items_encodable::<T>(items),
    ensures
        items_parsed::<T>(items.len(), items_written::<T>(items) + rest) == (
            Ok::<Seq<T::V>, Error>(items),
            rest,
        ),
    decreases items.len(),
{
    if items.len() == 0 {
        assert(items_written::<T>(items) + rest =~= rest);
        assert(items =~= Seq::empty());
    } else {
        let others = items.skip(1);
        let tail = items_written::<T>(others) + rest;
        assert(items_written::<T>(items) + rest =~= written::<T>(items[0]) + tail);
        <T::K as Kind<T>>::lemma_roundtrip(items[0], tail);
        assert forall|i: int| 0 <= i < others.len() implies T::encodable(#[trigger] others[i]) by {
            assert(others[i] == items[i + 1]);
        }
        lemma_items_roundtrip::<T>(others, rest);
        assert(seq![items[0]] + others =~= items);
    }
}

/// Writing one more item appends its wire bytes to those of the items before
/// it.
pub proof fn lemma_items_written_push<T: SafeCopy>(items: Seq<T::V>, last: T::V)
    ensures
        items_written::<T>(items.push(last)) == items_written::<T>(items) + written::<T>(last),
    decreases items.len(),
{
    if items.len() == 0 {
        assert(items.push(last).skip(1) =~= Seq::empty());
        assert(items_written::<T>(Seq::<T::V>::empty()) =~= Seq::<u8>::empty());
        assert(items_written::<T>(items.push(last)) =~= written::<T>(last));
        assert(items_written::<T>(items) + written::<T>(last) =~= written::<T>(last));
    } else {
        assert(items.push(last).skip(1) =~= items.skip(1).push(last));
        lemma_items_written_push::<T>(items.skip(1), last);
        assert(items_written::<T>(items.push(last)) =~= items_written::<T>(items) + written::<T>(
            last,
        ));
    }
}

/// What the items that were read so far and the outcome of reading the
/// others make together.
pub open spec fn after<V>(done: Seq<V>, others: (Result<Seq<V>, Error>, Seq<u8>)) -> (
    Result<Seq<V>, Error>,
    Seq<u8>,
) {
    match others {
        (Ok(items), rest) => (Ok(done + items), rest),
        (Err(e), rest) => (Err(e), rest),
    }
}

impl<T: SafeCopy> Payload for Vec<T> {
    const VERSION: i32 = 0;

    open spec fn encodable(m: Seq<T::V>) -> bool {
        m.len() <= u64::MAX && items_encodable::<T>(m)
    }

    open spec fn encoding(m: Seq<T::V>) -> Seq<u8> {
        u64_le_bytes(m.len() as u64) + items_written::<T>(m)
    }

    open spec fn decoding(input: Seq<u8>) -> (Result<Seq<T::V>, Error>, Seq<u8>) {
        match take_fixed(input, 8, u64_from_le_bytes(input)) {
            (Ok(count), rest) => items_parsed::<T>(count as nat, rest),
            (Err(e), rest) => (Err(e), rest),
        }
    }

    proof fn lemma_payload_roundtrip(m: Seq<T::V>, rest: Seq<u8>) {
        let count = m.len() as u64;
        let body = items_written::<T>(m) + rest;
        lemma_u64_roundtrip(count, body);
        assert(Self::encoding(m) + rest =~= u64_le_bytes(count) + body);
        assert((u64_le_bytes(count) + body).skip(8) =~= body);
        lemma_items_roundtrip::<T>(m, rest);
    }

    fn parse_unsafe(reader: &mut Reader) -> (r: Result<Self, Error>) {
        let count = match reader.read_u64() {
            Ok(count) => count,
            Err(e) => {
                return Err(e);
            },
        };
        let ghost start = reader@;
        let left = reader.remaining();
        let room: usize = if count <= left as u64 {
            count as usize
        } else {
            left
        };
        let mut result: Vec<T> = Vec::with_capacity(room);
        let mut i: u64 = 0;
        while i < count
            invariant
                i <= count,
                result@.len() == i,
                Self::decoding(old(reader)@) == items_parsed::<T>(count as nat, start),
                items_parsed::<T>(count as nat, start) == after(
                    result.deep_view(),
                    items_parsed::<T>((count - i) as nat, reader@),
                ),
            decreases count - i,
        {
            let ghost done = result.deep_view();
            let ghost before = reader@;
            match safe_parse::<T>(reader) {
                Ok(x) => {
                    result.push(x);
                    proof {
                        let first = x.deep_view();
                        assert(result.deep_view() =~= done.push(first));
                        let others = items_parsed::<T>((count - i - 1) as nat, reader@);
                        if let (Ok(items), _) = others {
                            assert(done + (seq![first] + items) =~= done.push(first) + items);
                        }
                    }
                },
                Err(e) => {
                    return Err(e);
                },
            }
            i = i + 1;
        }
        proof {
            assert(result.deep_view() + Seq::<T::V>::empty() =~= result.deep_view());
        }
        Ok(result)
    }

    fn write_unsafe(writer: &mut Vec<u8>, value: &Self) -> (r: Result<(), Error>) {
        let n = value.len();
        match write_u64(writer, n as u64) {
            Ok(()) => {},
            Err(e) => {
                return Err(e);
            },
        }
        let ghost items = value.deep_view();
        let ghost head = writer@;
        let mut i: usize = 0;
        while i < n
            invariant
                i <= n,
                n == value@.len(),
                items == value.deep_view(),
                writer@ == head + items_written::<T>(items.take(i as int)),
                forall|j: int| 0 <= j < i ==> T::encodable(#[trigger] items[j]),
            decreases n - i,
        {
            let ghost so_far = writer@;
            match safe_write(writer, &value[i]) {
                Ok(()) => {},
                Err(e) => {
                    return Err(e);
                },
            }
            proof {
                assert(value[i as int].deep_view() == items[i as int]);
                assert(items.take(i + 1) =~= items.take(i as int).push(items[i as int]));
                lemma_items_written_push::<T>(items.take(i as int), items[i as int]);
                assert(writer@ =~= head + items_written::<T>(items.take(i + 1)));
            }
            i = i + 1;
        }
        proof {
            assert(items.take(n as int) =~= items);
            assert(items_written::<T>(Seq::<T::V>::empty()) =~= Seq::<u8>::empty());
            assert(writer@ =~= old(writer)@ + Self::encoding(items));
        }
        Ok(())
    }
}

impl<T: SafeCopy> SafeCopy for Vec<T> {
    type K = Primitive;
}

} // verus!
