//! What holds of the wire format as a whole, proved from the contracts of
//! the rest of the library.

use crate::container::items_written;
use crate::dispatch::{parsed, written, Kind, Migrate, Payload, SafeCopy};
use crate::error::Error;
use crate::glue::{
    is_union_glue, ordinal, step_bytes, steps_bytes, variant_steps, Fields, Glue, Step,
};
use crate::policy::{Base, Extended};
use crate::wire::{i16_le_bytes, i32_le_bytes, lemma_i32_roundtrip, u64_le_bytes};
use vstd::prelude::*;

verus! {

/// Round trip: reading the bytes that writing a value gave yields the value,
/// and leaves whatever followed those bytes.
pub proof fn law_roundtrip<A: SafeCopy>(m: A::V, rest: Seq<u8>)
    requires
        A::encodable(m),
    ensures
        parsed::<A>(written::<A>(m) + rest) == (Ok::<A::V, Error>(m), rest),
{
    <A::K as Kind<A>>::lemma_roundtrip(m, rest);
}

/// Version gating: under the current-only policy the bytes of a value start
/// with the version of its type, and input that starts with any other tag is
/// refused with a version mismatch, with nothing read beyond the tag.
pub proof fn law_version_gating<A: Payload>(m: A::V, forged: i32, rest: Seq<u8>)
    requires
        forged != A::VERSION,
    ensures
        <Base as Kind<A>>::framed(m).take(4) == i32_le_bytes(A::VERSION),
        <Base as Kind<A>>::unframed(i32_le_bytes(forged) + rest) == (
            Err::<A::V, Error>(Error::VersionMismatch),
            rest,
        ),
{
    assert(<Base as Kind<A>>::framed(m).take(4) =~= i32_le_bytes(A::VERSION));
    lemma_i32_roundtrip(forged, rest);
    assert((i32_le_bytes(forged) + rest).skip(4) =~= rest);
}

/// Migration: where `New` migrates from `Old`, which is current-only and has
/// another version, reading what was written as an `Old` gives the
/// conversion of that value, and reading what was written as a `New` gives
/// that value itself.
pub proof fn law_migration<Old: SafeCopy<K = Base>, New: Payload + Migrate<Old>>(
    older: Old::V,
    newer: New::V,
    rest: Seq<u8>,
)
    requires
        Old::VERSION != New::VERSION,
        Old::encodable(older),
        New::encodable(newer),
    ensures
        <Extended<Old> as Kind<New>>::unframed(written::<Old>(older) + rest) == (
            Ok::<New::V, Error>(New::migrated(older)),
            rest,
        ),
        <Extended<Old> as Kind<New>>::unframed(<Extended<Old> as Kind<New>>::framed(newer) + rest)
            == (Ok::<New::V, Error>(newer), rest),
{
    let payload = Old::encoding(older) + rest;
    lemma_i32_roundtrip(Old::VERSION, payload);
    assert(written::<Old>(older) + rest =~= i32_le_bytes(Old::VERSION) + payload);
    assert((i32_le_bytes(Old::VERSION) + payload).skip(4) =~= payload);
    Old::lemma_payload_roundtrip(older, rest);
    <Extended<Old> as Kind<New>>::lemma_roundtrip(newer, rest);
}

/// Migration along a chain: where `Newest` migrates from `Middle`, which
/// migrates from the current-only `Oldest`, and the versions of the older
/// shapes differ from those of the newer ones, reading what was written as
/// an `Oldest` gives that value converted link by link.
pub proof fn law_migration_chain<
    Oldest: SafeCopy<K = Base>,
    Middle: SafeCopy<K = Extended<Oldest>> + Migrate<Oldest>,
    Newest: Payload + Migrate<Middle>,
>(oldest: Oldest::V, rest: Seq<u8>)
    requires
        Oldest::VERSION != Middle::VERSION,
        Oldest::VERSION != Newest::VERSION,
        Oldest::encodable(oldest),
    ensures
        <Extended<Middle> as Kind<Newest>>::unframed(written::<Oldest>(oldest) + rest) == (
            Ok::<Newest::V, Error>(Newest::migrated(Middle::migrated(oldest))),
            rest,
        ),
{
    let payload = Oldest::encoding(oldest) + rest;
    lemma_i32_roundtrip(Oldest::VERSION, payload);
    assert(written::<Oldest>(oldest) + rest =~= i32_le_bytes(Oldest::VERSION) + payload);
    assert((i32_le_bytes(Oldest::VERSION) + payload).skip(4) =~= payload);
    Oldest::lemma_payload_roundtrip(oldest, rest);
}

/// An unknown version: a stored tag that is none of the versions in the chain
/// of `A` is refused, whatever follows it, and only the tag is read.
pub proof fn law_unknown_version<Older: SafeCopy, A: Payload + Migrate<Older>>(
    tag: i32,
    rest: Seq<u8>,
)
    requires
        !<Extended<Older> as Kind<A>>::versions().contains(tag),
    ensures
        <Extended<Older> as Kind<A>>::unframed(i32_le_bytes(tag) + rest) == (
            Err::<A::V, Error>(<Extended<Older> as Kind<A>>::refusal()),
            rest,
        ),
{
    lemma_i32_roundtrip(tag, rest);
    assert((i32_le_bytes(tag) + rest).skip(4) =~= rest);
    <Extended<Older> as Kind<A>>::lemma_unknown_version(tag, rest);
}

/// Container recursion: a sequence of optional 32-bit integers reads back
/// item by item, absent items included, and the empty sequence is its count
/// and nothing more.
pub proof fn law_sequence_of_options(items: Seq<Option<i32>>, rest: Seq<u8>)
    requires
        items.len() <= u64::MAX,
    ensures
        parsed::<Vec<Option<i32>>>(written::<Vec<Option<i32>>>(items) + rest) == (
            Ok::<Seq<Option<i32>>, Error>(items),
            rest,
        ),
        written::<Vec<Option<i32>>>(Seq::empty()) == u64_le_bytes(0),
{
    law_roundtrip::<Vec<Option<i32>>>(items, rest);
    assert(items_written::<Option<i32>>(Seq::empty()) =~= Seq::<u8>::empty());
    assert(written::<Vec<Option<i32>>>(Seq::empty()) =~= u64_le_bytes(0));
}

/// Ordinal stability: the ordinal of a variant is its position in the
/// declaration, and the bytes that the glue of a tagged union writes for the
/// variant start with that ordinal.
pub proof fn law_ordinal_stability(
    glue: Glue,
    variants: Seq<Fields>,
    index: int,
    dispatched: Seq<Seq<u8>>,
    raw: Seq<Seq<u8>>,
)
    requires
        is_union_glue(glue, variants),
        0 <= index < variants.len(),
        index <= i16::MAX,
    ensures
        ordinal(index) == index,
        glue.write@[index]@[0] == Step::Ordinal(index as i16),
        steps_bytes(glue.write@[index]@, dispatched, raw).take(2) == i16_le_bytes(index as i16),
{
    let steps = glue.write@[index]@;
    assert(steps == variant_steps(ordinal(index), variants[index].count()));
    lemma_steps_start(steps, dispatched, raw);
    let others = steps_bytes(steps.skip(1), dispatched, raw);
    assert((i16_le_bytes(index as i16) + others).take(2) =~= i16_le_bytes(index as i16));
}

/// The bytes of a list of calls are the bytes of its first call and then
/// those of the others.
proof fn lemma_steps_start(steps: Seq<Step>, dispatched: Seq<Seq<u8>>, raw: Seq<Seq<u8>>)
    requires
        steps.len() > 0,
    ensures
        steps_bytes(steps, dispatched, raw) == step_bytes(steps[0], dispatched, raw) + steps_bytes(
            steps.skip(1),
            dispatched,
            raw,
        ),
    decreases steps.len(),
{
    let first = step_bytes(steps[0], dispatched, raw);
    if steps.len() == 1 {
        assert(steps.drop_last() =~= Seq::empty());
        assert(steps.skip(1) =~= Seq::empty());
        assert(steps_bytes(Seq::<Step>::empty(), dispatched, raw) =~= Seq::<u8>::empty());
        assert(steps_bytes(steps, dispatched, raw) =~= first + Seq::<u8>::empty());
    } else {
        let front = steps.drop_last();
        lemma_steps_start(front, dispatched, raw);
        assert(front[0] == steps[0]);
        assert(steps.skip(1).drop_last() =~= front.skip(1));
        assert(steps.skip(1).last() == steps.last());
        assert(steps_bytes(steps, dispatched, raw) =~= first + steps_bytes(
            steps.skip(1),
            dispatched,
            raw,
        ));
    }
}

} // verus!
