//! An encoder for the Universal Binary JSON (UBJSON) wire format.
//!
//! Values are written through a [`ser::Serializer`] that owns an in-memory
//! byte sink. Every emission operation appends exactly the bytes that the
//! format prescribes: integers are narrowed to the smallest marker that can
//! hold them losslessly, strings are length-prefixed, and sequence/map
//! regions are framed either by a declared element count or by an explicit
//! closing marker.

pub mod encoding;
pub mod error;
pub mod marker;
pub mod ser;

pub use error::Error;
pub use ser::{Dynamic, Scalar, Serializer, Static};
