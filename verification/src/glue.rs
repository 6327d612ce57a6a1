//! The payload glue of user-defined records and tagged unions: from the
//! declared shape of a type to the calls, in order, that write and read its
//! payload.
//!
//! A record hands each field to the dispatch entry points, in declaration
//! order. A tagged union writes the ordinal of the variant as a 16-bit
//! integer and then each field of the variant with the primitive codec;
//! there is no glue that reads a union back.

use crate::codec::{write_bytes, write_i16};
use crate::error::Error;
use crate::wire::i16_le_bytes;
use vstd::prelude::*;

verus! {

/// The fields of a record or of a variant, as they were declared, with their
/// number.
#[derive(Clone, Copy, Debug, PartialEq, Eq, Structural)]
pub enum Fields {
    /// Fields with names.
    Named(usize),
    /// Fields by position.
    Unnamed(usize),
    /// No fields at all.
    Unit,
}

/// The declared shape of a user-defined type.
#[derive(Debug)]
pub enum Shape {
    /// A record.
    Struct(Fields),
    /// A tagged union, with the fields of each variant in declaration order.
    Enum(Vec<Fields>),
    /// A raw memory union.
    Union,
}

/// Why a shape has no glue.
#[derive(Clone, Copy, Debug, PartialEq, Eq, Structural)]
pub enum ShapeError {
    /// The type is a raw memory union.
    RawUnion,
    /// A variant of the tagged union has fields with names.
    NamedVariant,
}

/// One call of the glue.
#[derive(Clone, Copy, Debug, PartialEq, Eq, Structural)]
pub enum Step {
    /// The ordinal of the variant goes to the primitive codec.
    Ordinal(i16),
    /// The field at this position goes through the dispatch entry points.
    Dispatch(usize),
    /// The field at this position goes to the primitive codec.
    Raw(usize),
}

impl DeepView for Step {
    type V = Step;

    open spec fn deep_view(&self) -> Step {
        *self
    }
}

/// The glue of a type.
#[derive(Debug)]
pub struct Glue {
    /// The calls that read a payload, or `None` where the shape cannot be
    /// read back.
    pub parse: Option<Vec<Step>>,
    /// The calls that write a payload: one list for a record, one list for
    /// each variant of a tagged union.
    pub write: Vec<Vec<Step>>,
}

impl Fields {
    /// The number of fields.
    pub open spec fn count(self) -> nat {
        match self {
            Fields::Named(n) => n as nat,
            Fields::Unnamed(n) => n as nat,
            Fields::Unit => 0,
        }
    }

    /// The number of fields.
    pub fn len(&self) -> (n: usize)
        ensures
            n == self.count(),
    {
        match self {
            Fields::Named(n) => *n,
            Fields::Unnamed(n) => *n,
            Fields::Unit => 0,
        }
    }
}

/// The ordinal of the variant at `index` in declaration order: the index
/// itself as far as 16 bits hold it, and wrapped round beyond.
pub open spec fn ordinal(index: int) -> i16 {
    if index % 0x1_0000 < 0x8000 {
        (index % 0x1_0000) as i16
    } else {
        (index % 0x1_0000 - 0x1_0000) as i16
    }
}

/// The calls for `count` fields through the dispatch entry points, in
/// declaration order.
pub open spec fn dispatch_steps(count: nat) -> Seq<Step> {
    Seq::new(count, |i: int| Step::Dispatch(i as usize))
}

/// The calls that write a variant: its ordinal, then its `count` fields with
/// the primitive codec, in declaration order.
pub open spec fn variant_steps(ordinal: i16, count: nat) -> Seq<Step> {
    Seq::new(
        count + 1,
        |i: int|
            if i == 0 {
                Step::Ordinal(ordinal)
            } else {
                Step::Raw((i - 1) as usize)
            },
    )
}

/// Whether some variant has fields with names.
pub open spec fn has_named_variant(variants: Seq<Fields>) -> bool {
    exists|i: int| 0 <= i < variants.len() && #[trigger] variants[i] is Named
}

/// Whether `glue` is the glue of a record with `count` fields.
pub open spec fn is_record_glue(glue: Glue, count: nat) -> bool {
    &&& glue.parse is Some
    &&& glue.parse->Some_0@ == dispatch_steps(count)
    &&& glue.write@.len() == 1
    &&& glue.write@[0]@ == dispatch_steps(count)
}

/// Whether `glue` is the glue of a tagged union with these variants.
pub open spec fn is_union_glue(glue: Glue, variants: Seq<Fields>) -> bool {
    &&& glue.parse is None
    &&& glue.write@.len() == variants.len()
    &&& forall|i: int|
        0 <= i < variants.len() ==> (#[trigger] glue.write@[i])@ == variant_steps(
            ordinal(i),
            variants[i].count(),
        )
}

/// The ordinal of the variant at `index` in declaration order.
pub fn ordinal_of(index: usize) -> (r: i16)
    ensures
        r == ordinal(index as int),
        index <= i16::MAX ==> r == index,
{
    let low: usize = index % 0x1_0000;
    if low < 0x8000 {
        low as i16
    } else {
        (low as i32 - 0x1_0000) as i16
    }
}

fn dispatch_list(count: usize) -> (steps: Vec<Step>)
    ensures
        steps@ == dispatch_steps(count as nat),
{
    let mut steps: Vec<Step> = Vec::new();
    let mut i: usize = 0;
    while i < count
        invariant
            i <= count,
            steps@.len() == i,
            forall|j: int| 0 <= j < i ==> steps@[j] == Step::Dispatch(j as usize),
        decreases count - i,
    {
        steps.push(Step::Dispatch(i));
        i = i + 1;
    }
    assert(steps@ =~= dispatch_steps(count as nat));
    steps
}

fn variant_list(ordinal: i16, count: usize) -> (steps: Vec<Step>)
    ensures
        steps@ == variant_steps(ordinal, count as nat),
{
    let mut steps: Vec<Step> = Vec::new();
    steps.push(Step::Ordinal(ordinal));
    let mut i: usize = 0;
    while i < count
        invariant
            i <= count,
            steps@.len() == i + 1,
            steps@[0] == Step::Ordinal(ordinal),
            forall|j: int| 1 <= j <= i ==> steps@[j] == Step::Raw((j - 1) as usize),
        decreases count - i,
    {
        steps.push(Step::Raw(i));
        i = i + 1;
    }
    assert(steps@ =~= variant_steps(ordinal, count as nat));
    steps
}

/// The glue of a type of the given shape. A raw union has none, and neither
/// has a tagged union with a variant whose fields have names.
#[verifier::loop_isolation(false)]
pub fn derive_safecopy(input: &Shape) -> (r: Result<Glue, ShapeError>)
    ensures
        match *input {
            Shape::Struct(fields) => r is Ok && is_record_glue(r->Ok_0, fields.count()),
            Shape::Enum(variants) => if has_named_variant(variants@) {
                r == Err::<Glue, ShapeError>(ShapeError::NamedVariant)
            } else {
                r is Ok && is_union_glue(r->Ok_0, variants@)
            },
            Shape::Union => r == Err::<Glue, ShapeError>(ShapeError::RawUnion),
        },
{
    match input {
        Shape::Struct(fields) => {
            let count = fields.len();
            let mut write: Vec<Vec<Step>> = Vec::new();
            write.push(dispatch_list(count));
            Ok(Glue { parse: Some(dispatch_list(count)), write })
        },
        Shape::Enum(variants) => {
            let mut write: Vec<Vec<Step>> = Vec::new();
            let mut i: usize = 0;
            while i < variants.len()
                invariant
                    i <= variants@.len(),
                    write@.len() == i,
                    forall|j: int| 0 <= j < i ==> !(#[trigger] variants@[j] is Named),
                    forall|j: int|
                        0 <= j < i ==> (#[trigger] write@[j])@ == variant_steps(
                            ordinal(j),
                            variants@[j].count(),
                        ),
                decreases variants@.len() - i,
            {
                match variants[i] {
                    Fields::Named(_) => {
                        return Err(ShapeError::NamedVariant);
                    },
                    Fields::Unnamed(count) => {
                        write.push(variant_list(ordinal_of(i), count));
                    },
                    Fields::Unit => {
                        write.push(variant_list(ordinal_of(i), 0));
                    },
                }
                i = i + 1;
            }
            Ok(Glue { parse: None, write })
        },
        Shape::Union => Err(ShapeError::RawUnion),
    }
}

/// The wire bytes of one call, given the wire bytes of each field as the
/// dispatch entry points write it and as the primitive codec writes it.
pub open spec fn step_bytes(step: Step, dispatched: Seq<Seq<u8>>, raw: Seq<Seq<u8>>) -> Seq<u8> {
    match step {
        Step::Ordinal(ordinal) => i16_le_bytes(ordinal),
        Step::Dispatch(i) => dispatched[i as int],
        Step::Raw(i) => raw[i as int],
    }
}

/// The wire bytes of a list of calls, one after the other.
pub open spec fn steps_bytes(steps: Seq<Step>, dispatched: Seq<Seq<u8>>, raw: Seq<Seq<u8>>) -> Seq<
    u8,
>
    decreases steps.len(),
{
    if steps.len() == 0 {
        Seq::empty()
    } else {
        steps_bytes(steps.drop_last(), dispatched, raw) + step_bytes(steps.last(), dispatched, raw)
    }
}

/// Whether each call finds the field that it names.
pub open spec fn steps_in_range(steps: Seq<Step>, dispatched: nat, raw: nat) -> bool {
    forall|i: int|
        0 <= i < steps.len() ==> match #[trigger] steps[i] {
            Step::Ordinal(_) => true,
            Step::Dispatch(k) => k < dispatched,
            Step::Raw(k) => k < raw,
        }
}

/// Writes a payload as `steps` prescribe, from the wire bytes of each field.
pub fn write_steps(
    writer: &mut Vec<u8>,
    steps: &Vec<Step>,
    dispatched: &Vec<Vec<u8>>,
    raw: &Vec<Vec<u8>>,
) -> (r: Result<(), Error>)
    requires
        steps_in_range(steps@, dispatched@.len(), raw@.len()),
    ensures
        r is Ok,
        final(writer)@ == old(writer)@ + steps_bytes(steps@, dispatched.deep_view(), raw.deep_view()),
{
    let mut i: usize = 0;
    while i < steps.len()
        invariant
            i <= steps@.len(),
            steps_in_range(steps@, dispatched@.len(), raw@.len()),
            writer@ == old(writer)@ + steps_bytes(
                steps@.take(i as int),
                dispatched.deep_view(),
                raw.deep_view(),
            ),
        decreases steps@.len() - i,
    {
        let r = match steps[i] {
            Step::Ordinal(ordinal) => write_i16(writer, ordinal),
            Step::Dispatch(k) => write_bytes(writer, dispatched[k].as_slice()),
            Step::Raw(k) => write_bytes(writer, raw[k].as_slice()),
        };
        match r {
            Ok(()) => {},
            Err(e) => {
                return Err(e);
            },
        }
        proof {
            let next = steps@.take(i + 1);
            assert(next.drop_last() =~= steps@.take(i as int));
            assert(next.last() == steps@[i as int]);
            assert(writer@ =~= old(writer)@ + steps_bytes(
                next,
                dispatched.deep_view(),
                raw.deep_view(),
            ));
        }
        i = i + 1;
    }
    assert(steps@.take(steps@.len() as int) =~= steps@);
    Ok(())
}

} // verus!
