use vstd::prelude::*;

verus! {

/// The ways in which reading a value can fail.
#[derive(Clone, Copy, Debug, PartialEq, Eq, Structural)]
pub enum Error {
    /// The stored version tag is not the version of the type that was asked
    /// for, and the type has no older shape to fall back to.
    VersionMismatch,
    /// A read at a given version was handed to an unversioned type, which has
    /// no version tags at all.
    UnsupportedMigration,
    /// The presence byte of an optional value is neither 0 nor 1.
    MalformedTag,
    /// The bytes of a text are not valid UTF-8.
    TextDecodeFailure,
    /// The input ended before the value did.
    UnderlyingIoFailure,
}

} // verus!
