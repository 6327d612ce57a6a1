//! Versioned binary serialization.
//!
//! A value is written as bytes and read back, also after the shape of its
//! type has changed: the bytes of a versioned type start with a version tag,
//! and a type that names its predecessor reads the bytes of every older shape
//! and converts what it finds, link by link, into the current one.
//!
//! - [`wire`]: the byte layout of fixed-width integers.
//! - [`codec`]: the primitive codec, which writes and reads those integers.
//! - [`reader`]: the input, a cursor over bytes in memory.
//! - [`dispatch`]: what a serializable type provides, and the entry points
//!   [`safe_parse`] and [`safe_write`].
//! - [`policy`]: the three versioning policies.
//! - [`scalar`], [`text`], [`container`], [`pointer`]: the types that are
//!   serializable as they come.
//! - [`glue`]: the payload glue of user-defined records and tagged unions.
//! - [`laws`]: what holds of the format as a whole.

pub mod codec;
pub mod container;
pub mod dispatch;
pub mod error;
pub mod glue;
pub mod laws;
pub mod pointer;
pub mod policy;
pub mod reader;
pub mod scalar;
pub mod text;
pub mod wire;

pub use dispatch::{safe_parse, safe_write, Kind, Migrate, Payload, SafeCopy};
pub use error::Error;
pub use glue::derive_safecopy;
pub use policy::{Base, Extended, Primitive};
pub use reader::Reader;
pub use vstd::view::DeepView;
