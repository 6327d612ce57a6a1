use quickcheck::{QuickCheck, TestResult};
use safecopy::{
    safe_parse, safe_write, Base, DeepView, Error, Extended, Kind, Migrate, Payload, Reader,
    SafeCopy,
};
use vstd::seq::Seq;

// The types below implement the library's traits by hand. The members that
// only contracts speak of are never called.

#[derive(Debug, PartialEq, Clone)]
struct T1(i32);

impl DeepView for T1 {
    type V = i32;

    fn deep_view(&self) -> i32 {
        self.0
    }
}

impl Payload for T1 {
    const VERSION: i32 = 0;

    fn encodable(_m: i32) -> bool {
        true
    }

    fn encoding(_m: i32) -> Seq<u8> {
        unreachable!()
    }

    fn decoding(_input: Seq<u8>) -> (Result<i32, Error>, Seq<u8>) {
        unreachable!()
    }

    fn lemma_payload_roundtrip(_m: i32, _rest: Seq<u8>) {}

    fn parse_unsafe(reader: &mut Reader) -> Result<Self, Error> {
        Ok(T1(safe_parse(reader)?))
    }

    fn write_unsafe(writer: &mut Vec<u8>, value: &Self) -> Result<(), Error> {
        safe_write(writer, &value.0)
    }
}

impl SafeCopy for T1 {
    type K = Base;
}

#[derive(Debug, PartialEq, Clone)]
struct T2(i32, Option<String>);

impl DeepView for T2 {
    type V = (i32, Option<Seq<char>>);

    fn deep_view(&self) -> Self::V {
        unreachable!()
    }
}

impl Payload for T2 {
    const VERSION: i32 = 1;

    fn encodable(_m: Self::V) -> bool {
        true
    }

    fn encoding(_m: Self::V) -> Seq<u8> {
        unreachable!()
    }

    fn decoding(_input: Seq<u8>) -> (Result<Self::V, Error>, Seq<u8>) {
        unreachable!()
    }

    fn lemma_payload_roundtrip(_m: Self::V, _rest: Seq<u8>) {}

    fn parse_unsafe(reader: &mut Reader) -> Result<Self, Error> {
        Ok(T2(safe_parse(reader)?, safe_parse(reader)?))
    }

    fn write_unsafe(writer: &mut Vec<u8>, value: &Self) -> Result<(), Error> {
        safe_write(writer, &value.0)?;
        safe_write(writer, &value.1)
    }
}

impl SafeCopy for T2 {
    type K = Extended<T1>;
}

impl Migrate<T1> for T2 {
    fn migrated(_older: i32) -> Self::V {
        unreachable!()
    }

    fn migrate(older: T1) -> Self {
        T2(older.0, None)
    }
}

#[derive(Debug, PartialEq, Clone)]
struct T3 {
    id: i64,
    note: Option<String>,
}

impl DeepView for T3 {
    type V = (i64, Option<Seq<char>>);

    fn deep_view(&self) -> Self::V {
        unreachable!()
    }
}

impl Payload for T3 {
    const VERSION: i32 = 2;

    fn encodable(_m: Self::V) -> bool {
        true
    }

    fn encoding(_m: Self::V) -> Seq<u8> {
        unreachable!()
    }

    fn decoding(_input: Seq<u8>) -> (Result<Self::V, Error>, Seq<u8>) {
        unreachable!()
    }

    fn lemma_payload_roundtrip(_m: Self::V, _rest: Seq<u8>) {}

    fn parse_unsafe(reader: &mut Reader) -> Result<Self, Error> {
        Ok(T3 { id: safe_parse(reader)?, note: safe_parse(reader)? })
    }

    fn write_unsafe(writer: &mut Vec<u8>, value: &Self) -> Result<(), Error> {
        safe_write(writer, &value.id)?;
        safe_write(writer, &value.note)
    }
}

impl SafeCopy for T3 {
    type K = Extended<T2>;
}

impl Migrate<T2> for T3 {
    fn migrated(_older: (i32, Option<Seq<char>>)) -> Self::V {
        unreachable!()
    }

    fn migrate(older: T2) -> Self {
        T3 { id: older.0 as i64, note: older.1 }
    }
}

/// A versioned type whose predecessor is an unversioned one.
#[derive(Debug, PartialEq)]
struct Wrapped(i32);

impl DeepView for Wrapped {
    type V = i32;

    fn deep_view(&self) -> i32 {
        self.0
    }
}

impl Payload for Wrapped {
    const VERSION: i32 = 1;

    fn encodable(_m: i32) -> bool {
        true
    }

    fn encoding(_m: i32) -> Seq<u8> {
        unreachable!()
    }

    fn decoding(_input: Seq<u8>) -> (Result<i32, Error>, Seq<u8>) {
        unreachable!()
    }

    fn lemma_payload_roundtrip(_m: i32, _rest: Seq<u8>) {}

    fn parse_unsafe(reader: &mut Reader) -> Result<Self, Error> {
        Ok(Wrapped(safe_parse(reader)?))
    }

    fn write_unsafe(writer: &mut Vec<u8>, value: &Self) -> Result<(), Error> {
        safe_write(writer, &value.0)
    }
}

impl SafeCopy for Wrapped {
    type K = Extended<i32>;
}

impl Migrate<i32> for Wrapped {
    fn migrated(older: i32) -> i32 {
        older
    }

    fn migrate(older: i32) -> Self {
        Wrapped(older)
    }
}

fn write_all<A: SafeCopy>(value: &A) -> Vec<u8> {
    let mut buffer = Vec::new();
    safe_write(&mut buffer, value).unwrap();
    buffer
}

fn check_custom(i: i32, s: Option<String>) -> TestResult {
    let t1 = T1(i);
    let mut reader = Reader::new(write_all(&t1));
    let t2: Result<T2, Error> = safe_parse(&mut reader);
    match t2 {
        Ok(t2) => {
            if t2 != T2(i, None) {
                return TestResult::error(format!("Expected {:?}, got {:?}", T2(i, None), t2));
            }
        }
        Err(e) => return TestResult::error(format!("Error: {:?}", e)),
    }
    let t2 = T2(i, s);
    let mut reader = Reader::new(write_all(&t2));
    let back: Result<T2, Error> = safe_parse(&mut reader);
    TestResult::from_bool(back == Ok(t2) && reader.remaining() == 0)
}

#[test]
fn prop_custom() {
    QuickCheck::new().quickcheck(check_custom as fn(i32, Option<String>) -> TestResult);
}

#[test]
fn current_only_embeds_the_version() {
    assert_eq!(write_all(&T1(5)), vec![0, 0, 0, 0, 5, 0, 0, 0]);
    assert_eq!(write_all(&T2(5, None)), vec![1, 0, 0, 0, 5, 0, 0, 0, 0]);
}

#[test]
fn writing_never_downgrades() {
    let bytes = write_all(&T3 { id: 9, note: None });
    assert_eq!(&bytes[..4], &[2, 0, 0, 0]);
    assert_eq!(bytes.len(), 4 + 8 + 1);
}

#[test]
fn forged_tag_is_a_version_mismatch() {
    let mut bytes = write_all(&T1(5));
    bytes[0] = 1;
    let mut reader = Reader::new(bytes);
    let r: Result<T1, Error> = safe_parse(&mut reader);
    assert_eq!(r, Err(Error::VersionMismatch));
}

#[test]
fn stored_tag_seven_fails_and_reads_only_the_tag() {
    let mut reader = Reader::new(vec![7, 0, 0, 0, 5, 0, 0, 0, 9, 9]);
    let r: Result<T1, Error> = safe_parse(&mut reader);
    assert_eq!(r, Err(Error::VersionMismatch));
    assert_eq!(reader.remaining(), 6);
    let next: Result<i32, Error> = safe_parse(&mut reader);
    assert_eq!(next, Ok(5));
}

#[test]
fn unknown_tag_falls_through_the_whole_chain() {
    let mut reader = Reader::new(vec![7, 0, 0, 0, 5, 0, 0, 0]);
    let r: Result<T3, Error> = safe_parse(&mut reader);
    assert_eq!(r, Err(Error::VersionMismatch));
    assert_eq!(reader.remaining(), 4);
}

#[test]
fn oldest_shape_migrates_through_every_link() {
    let mut reader = Reader::new(write_all(&T1(-3)));
    let r: Result<T3, Error> = safe_parse(&mut reader);
    assert_eq!(r, Ok(T3 { id: -3, note: None }));
    assert_eq!(reader.remaining(), 0);
}

#[test]
fn middle_shape_migrates_one_link() {
    let mut reader = Reader::new(write_all(&T2(8, Some(String::from("kept")))));
    let r: Result<T3, Error> = safe_parse(&mut reader);
    assert_eq!(r, Ok(T3 { id: 8, note: Some(String::from("kept")) }));
}

#[test]
fn current_shape_is_read_directly() {
    let value = T3 { id: i64::MIN, note: Some(String::new()) };
    let mut reader = Reader::new(write_all(&value));
    let r: Result<T3, Error> = safe_parse(&mut reader);
    assert_eq!(r, Ok(value));
}

#[test]
fn read_at_version_threads_the_tag_down() {
    let mut reader = Reader::new(vec![5, 0, 0, 0]);
    let r: Result<T2, Error> = <Extended<T1> as Kind<T2>>::safe_parse_versioned(0, &mut reader);
    assert_eq!(r, Ok(T2(5, None)));
    let mut reader = Reader::new(vec![5, 0, 0, 0, 0]);
    let r: Result<T2, Error> = <Extended<T1> as Kind<T2>>::safe_parse_versioned(1, &mut reader);
    assert_eq!(r, Ok(T2(5, None)));
    let mut reader = Reader::new(vec![5, 0, 0, 0]);
    let r: Result<T1, Error> = <Base as Kind<T1>>::safe_parse_versioned(3, &mut reader);
    assert_eq!(r, Err(Error::VersionMismatch));
    assert_eq!(reader.remaining(), 4);
}

#[test]
fn unversioned_predecessor_cannot_resume() {
    let mut reader = Reader::new(vec![0, 0, 0, 0, 5, 0, 0, 0]);
    let r: Result<Wrapped, Error> = safe_parse(&mut reader);
    assert_eq!(r, Err(Error::UnsupportedMigration));
    let mut reader = Reader::new(vec![1, 0, 0, 0, 5, 0, 0, 0]);
    let r: Result<Wrapped, Error> = safe_parse(&mut reader);
    assert_eq!(r, Ok(Wrapped(5)));
}

#[test]
fn unversioned_read_at_version_is_unsupported() {
    let mut reader = Reader::new(vec![5, 0, 0, 0]);
    let r: Result<i32, Error> =
        <safecopy::Primitive as Kind<i32>>::safe_parse_versioned(0, &mut reader);
    assert_eq!(r, Err(Error::UnsupportedMigration));
    assert_eq!(reader.remaining(), 4);
}

#[test]
fn truncated_tag_is_an_io_failure() {
    let mut reader = Reader::new(vec![0, 0, 0]);
    let r: Result<T1, Error> = safe_parse(&mut reader);
    assert_eq!(r, Err(Error::UnderlyingIoFailure));
}

#[test]
fn truncated_payload_is_an_io_failure() {
    let mut reader = Reader::new(vec![0, 0, 0, 0, 5, 0]);
    let r: Result<T1, Error> = safe_parse(&mut reader);
    assert_eq!(r, Err(Error::UnderlyingIoFailure));
}
