use safecopy::codec::{write_i32, write_i64};
use safecopy::glue::{ordinal_of, write_steps, Fields, Shape, ShapeError, Step};
use safecopy::{derive_safecopy, safe_write};

#[test]
fn record_with_named_fields() {
    let glue = derive_safecopy(&Shape::Struct(Fields::Named(2))).unwrap();
    assert_eq!(glue.parse, Some(vec![Step::Dispatch(0), Step::Dispatch(1)]));
    assert_eq!(glue.write, vec![vec![Step::Dispatch(0), Step::Dispatch(1)]]);
}

#[test]
fn record_with_positional_fields() {
    let glue = derive_safecopy(&Shape::Struct(Fields::Unnamed(3))).unwrap();
    let steps = vec![Step::Dispatch(0), Step::Dispatch(1), Step::Dispatch(2)];
    assert_eq!(glue.parse, Some(steps.clone()));
    assert_eq!(glue.write, vec![steps]);
}

#[test]
fn record_without_fields() {
    let glue = derive_safecopy(&Shape::Struct(Fields::Unit)).unwrap();
    assert_eq!(glue.parse, Some(vec![]));
    assert_eq!(glue.write, vec![Vec::<Step>::new()]);
    let glue = derive_safecopy(&Shape::Struct(Fields::Unnamed(0))).unwrap();
    assert_eq!(glue.parse, Some(vec![]));
    assert_eq!(glue.write, vec![Vec::<Step>::new()]);
}

#[test]
fn tagged_union_is_written_and_not_read() {
    let shape = Shape::Enum(vec![Fields::Unit, Fields::Unnamed(2), Fields::Unnamed(1)]);
    let glue = derive_safecopy(&shape).unwrap();
    assert_eq!(glue.parse, None);
    assert_eq!(
        glue.write,
        vec![
            vec![Step::Ordinal(0)],
            vec![Step::Ordinal(1), Step::Raw(0), Step::Raw(1)],
            vec![Step::Ordinal(2), Step::Raw(0)],
        ]
    );
}

#[test]
fn tagged_union_without_variants() {
    let glue = derive_safecopy(&Shape::Enum(vec![])).unwrap();
    assert_eq!(glue.parse, None);
    assert!(glue.write.is_empty());
}

#[test]
fn raw_union_is_rejected() {
    assert_eq!(derive_safecopy(&Shape::Union).unwrap_err(), ShapeError::RawUnion);
}

#[test]
fn variant_with_named_fields_is_rejected() {
    let shape = Shape::Enum(vec![Fields::Unit, Fields::Named(1), Fields::Unnamed(1)]);
    assert_eq!(derive_safecopy(&shape).unwrap_err(), ShapeError::NamedVariant);
    let shape = Shape::Enum(vec![Fields::Named(0)]);
    assert_eq!(derive_safecopy(&shape).unwrap_err(), ShapeError::NamedVariant);
}

#[test]
fn ordinal_is_the_declaration_index() {
    assert_eq!(ordinal_of(0), 0);
    assert_eq!(ordinal_of(1), 1);
    assert_eq!(ordinal_of(2), 2);
    assert_eq!(ordinal_of(32767), 32767);
}

#[test]
fn ordinal_wraps_beyond_sixteen_bits() {
    assert_eq!(ordinal_of(32768), -32768);
    assert_eq!(ordinal_of(65535), -1);
    assert_eq!(ordinal_of(65536), 0);
    assert_eq!(ordinal_of(65537), 1);
}

#[test]
fn every_variant_of_a_large_union_has_its_index() {
    let shape = Shape::Enum(vec![Fields::Unit; 300]);
    let glue = derive_safecopy(&shape).unwrap();
    for (i, steps) in glue.write.iter().enumerate() {
        assert_eq!(steps, &vec![Step::Ordinal(i as i16)]);
    }
}

#[test]
fn variant_bytes_are_ordinal_then_raw_fields() {
    let shape = Shape::Enum(vec![Fields::Unit, Fields::Unnamed(2), Fields::Unit]);
    let glue = derive_safecopy(&shape).unwrap();
    let mut first = Vec::new();
    write_i32(&mut first, 7).unwrap();
    let mut second = Vec::new();
    write_i64(&mut second, -1).unwrap();
    let raw = vec![first, second];
    let mut out = Vec::new();
    write_steps(&mut out, &glue.write[1], &vec![], &raw).unwrap();
    assert_eq!(out, vec![1, 0, 7, 0, 0, 0, 255, 255, 255, 255, 255, 255, 255, 255]);
    let mut out = Vec::new();
    write_steps(&mut out, &glue.write[0], &vec![], &vec![]).unwrap();
    assert_eq!(out, vec![0, 0]);
    let mut out = vec![9];
    write_steps(&mut out, &glue.write[2], &vec![], &vec![]).unwrap();
    assert_eq!(out, vec![9, 2, 0]);
}

#[test]
fn negative_ordinal_is_written_in_twos_complement() {
    let mut out = Vec::new();
    write_steps(&mut out, &vec![Step::Ordinal(-2)], &vec![], &vec![]).unwrap();
    assert_eq!(out, vec![0xfe, 0xff]);
    let mut out = Vec::new();
    write_steps(&mut out, &vec![Step::Ordinal(0x0102)], &vec![], &vec![]).unwrap();
    assert_eq!(out, vec![2, 1]);
}

#[test]
fn record_bytes_are_the_fields_in_declaration_order() {
    let glue = derive_safecopy(&Shape::Struct(Fields::Named(2))).unwrap();
    let mut x = Vec::new();
    safe_write(&mut x, &3i32).unwrap();
    let mut y = Vec::new();
    safe_write(&mut y, &Some(4i32)).unwrap();
    let mut out = Vec::new();
    write_steps(&mut out, &glue.write[0], &vec![x, y], &vec![]).unwrap();
    assert_eq!(out, vec![3, 0, 0, 0, 1, 4, 0, 0, 0]);
}

#[test]
fn unit_record_writes_nothing() {
    let glue = derive_safecopy(&Shape::Struct(Fields::Unit)).unwrap();
    let mut out = Vec::new();
    write_steps(&mut out, &glue.write[0], &vec![], &vec![]).unwrap();
    assert!(out.is_empty());
}

#[test]
fn fields_know_their_number() {
    assert_eq!(Fields::Named(2).len(), 2);
    assert_eq!(Fields::Unnamed(5).len(), 5);
    assert_eq!(Fields::Unit.len(), 0);
}
