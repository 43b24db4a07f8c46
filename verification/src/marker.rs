//! The UBJSON marker table: one-byte ASCII tags that identify the payload
//! that follows them on the wire.

use vstd::prelude::*;

verus! {

/// Null / absent value; also used for unit values.
pub const NULL: u8 = 0x5a;
/// Boolean true. No payload.
pub const TRUE: u8 = 0x54;
/// Boolean false. No payload.
pub const FALSE: u8 = 0x46;
/// Signed 8-bit integer: 1 payload byte.
pub const I8: u8 = 0x69;
/// Unsigned 8-bit integer: 1 payload byte.
pub const U8: u8 = 0x55;
/// Signed 16-bit integer: 2 payload bytes, big-endian.
pub const I16: u8 = 0x49;
/// Signed 32-bit integer: 4 payload bytes, big-endian.
pub const I32: u8 = 0x6c;
/// Signed 64-bit integer: 8 payload bytes, big-endian.
pub const I64: u8 = 0x4c;
/// 32-bit IEEE-754 float: 4 payload bytes, big-endian.
pub const F32: u8 = 0x64;
/// 64-bit IEEE-754 float: 8 payload bytes, big-endian.
pub const F64: u8 = 0x44;
/// High-precision number: a length-prefixed decimal ASCII string.
pub const HI_PRECISION: u8 = 0x48;
/// ASCII char: 1 raw payload byte.
pub const CHAR: u8 = 0x43;
/// String: narrowed length prefix, then raw UTF-8 bytes.
pub const STRING: u8 = 0x53;
/// Array start.
pub const ARR_START: u8 = 0x5b;
/// Array end; written only when the array was opened without a count.
pub const ARR_END: u8 = 0x5d;
/// Object start.
pub const OBJ_START: u8 = 0x7b;
/// Object end; written only when the object was opened without a count.
pub const OBJ_END: u8 = 0x7d;
/// Strong-type tag inside a container header.
pub const TYPE: u8 = 0x24;
/// Count tag inside a container header.
pub const LENGTH: u8 = 0x23;

} // verus!
