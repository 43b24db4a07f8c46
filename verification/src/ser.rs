//! The encoder: one emission operation per scalar kind, and cursors for
//! sequence and map regions.

use vstd::prelude::*;
use vstd::slice::slice_index_get;

use crate::encoding::{
    be2, be4, be8, dec_digits, lemma_dec_digits_len_u64, spec_byte_array, spec_char, spec_close,
    spec_key, spec_open, spec_signed, spec_str, spec_unsigned, to_unsigned,
};
use crate::error::Error;
use crate::marker;

verus! {

/// Writes UBJSON bytes into an in-memory sink that it owns exclusively.
///
/// Every operation appends bytes immediately and deterministically; the
/// serializer keeps no other state. Its view is the byte sequence written
/// so far.
pub struct Serializer {
    inner: Vec<u8>,
}

impl View for Serializer {
    type V = Seq<u8>;

    closed spec fn view(&self) -> Seq<u8> {
        self.inner@
    }
}

/// The unsigned 16-bit image of `v` in two's complement.
fn wire2(v: i16) -> (w: u16)
    ensures
        w as int == to_unsigned(v as int, 0x1_0000),
{
    if v >= 0 {
        v as u16
    } else {
        ((v as i32) + 0x1_0000) as u16
    }
}

/// The unsigned 32-bit image of `v` in two's complement.
fn wire4(v: i32) -> (w: u32)
    ensures
        w as int == to_unsigned(v as int, 0x1_0000_0000),
{
    if v >= 0 {
        v as u32
    } else {
        ((v as i64) + 0x1_0000_0000) as u32
    }
}

/// The unsigned 64-bit image of `v` in two's complement.
fn wire8(v: i64) -> (w: u64)
    ensures
        w as int == to_unsigned(v as int, 0x1_0000_0000_0000_0000),
{
    if v >= 0 {
        v as u64
    } else {
        ((v + 0x7fff_ffff_ffff_ffff + 1) as u64) + 0x8000_0000_0000_0000u64
    }
}

impl Serializer {
    /// Creates a new UBJSON serializer around the given byte sink.
    pub fn new(writer: Vec<u8>) -> (r: Serializer)
        ensures
            r@ == writer@,
    {
        Serializer { inner: writer }
    }

    /// Consumes the serializer and returns the sink it wrapped.
    pub fn into_inner(self) -> (r: Vec<u8>)
        ensures
            r@ == self@,
    {
        self.inner
    }

    /// Appends the two big-endian bytes of `w`.
    fn push_be2(&mut self, w: u16)
        ensures
            final(self)@ == old(self)@ + be2(w as int),
    {
        self.inner.push((w / 0x100) as u8);
        self.inner.push((w % 0x100) as u8);
        proof {
            assert(self.inner@ =~= old(self).inner@ + be2(w as int));
        }
    }

    /// Appends the four big-endian bytes of `w`.
    fn push_be4(&mut self, w: u32)
        ensures
            final(self)@ == old(self)@ + be4(w as int),
    {
        self.inner.push((w / 0x100_0000) as u8);
        self.inner.push(((w / 0x1_0000) % 0x100) as u8);
        self.inner.push(((w / 0x100) % 0x100) as u8);
        self.inner.push((w % 0x100) as u8);
        proof {
            assert(self.inner@ =~= old(self).inner@ + be4(w as int));
        }
    }

    /// Appends the eight big-endian bytes of `w`.
    fn push_be8(&mut self, w: u64)
        ensures
            final(self)@ == old(self)@ + be8(w as int),
    {
        self.inner.push((w / 0x100_0000_0000_0000) as u8);
        self.inner.push(((w / 0x1_0000_0000_0000) % 0x100) as u8);
        self.inner.push(((w / 0x100_0000_0000) % 0x100) as u8);
        self.inner.push(((w / 0x1_0000_0000) % 0x100) as u8);
        self.inner.push(((w / 0x100_0000) % 0x100) as u8);
        self.inner.push(((w / 0x1_0000) % 0x100) as u8);
        self.inner.push(((w / 0x100) % 0x100) as u8);
        self.inner.push((w % 0x100) as u8);
        proof {
            assert(self.inner@ =~= old(self).inner@ + be8(w as int));
        }
    }

    /// Appends a byte slice verbatim.
    fn push_raw(&mut self, bytes: &[u8])
        ensures
            final(self)@ == old(self)@ + bytes@,
    {
        let n: usize = bytes.len();
        let mut i: usize = 0;
        while i < n
            invariant
                i <= n,
                n == bytes@.len(),
                self.inner@ == old(self).inner@ + bytes@.subrange(0, i as int),
            decreases n - i,
        {
            let b: u8 = *slice_index_get(bytes, i);
            self.inner.push(b);
            proof {
                assert(self.inner@ =~= old(self).inner@ + bytes@.subrange(0, i as int + 1));
            }
            i = i + 1;
        }
        proof {
            assert(bytes@.subrange(0, n as int) =~= bytes@);
        }
    }

    /// Emits a boolean: the marker `T` or `F`, no payload.
    pub fn serialize_bool(&mut self, v: bool) -> (r: Result<(), Error>)
        ensures
            r is Ok,
            final(self)@ == old(self)@ + seq![if v { marker::TRUE } else { marker::FALSE }],
    {
        self.inner.push(if v { marker::TRUE } else { marker::FALSE });
        proof {
            assert(self.inner@ =~= old(self).inner@ + seq![
                if v { marker::TRUE } else { marker::FALSE },
            ]);
        }
        Ok(())
    }

    /// Emits a signed 8-bit integer: always the marker `i` and one payload
    /// byte (the narrowing chain bottoms out here).
    pub fn serialize_i8(&mut self, v: i8) -> (r: Result<(), Error>)
        ensures
            r is Ok,
            final(self)@ == old(self)@ + spec_signed(v as int),
    {
        self.inner.push(marker::I8);
        let b: u8 = if v >= 0 {
            v as u8
        } else {
            ((v as i16) + 0x100) as u8
        };
        self.inner.push(b);
        proof {
            assert(self.inner@ =~= old(self).inner@ + spec_signed(v as int));
        }
        Ok(())
    }

    /// Emits an unsigned 8-bit integer: always the marker `U` and one
    /// payload byte.
    pub fn serialize_u8(&mut self, v: u8) -> (r: Result<(), Error>)
        ensures
            r is Ok,
            final(self)@ == old(self)@ + spec_unsigned(v as int),
    {
        self.inner.push(marker::U8);
        self.inner.push(v);
        proof {
            assert(self.inner@ =~= old(self).inner@ + spec_unsigned(v as int));
        }
        Ok(())
    }

    /// Emits a signed 16-bit integer through the signed narrowing path: `i`
    /// when the value fits signed 8-bit, `U` when it fits unsigned 8-bit,
    /// else `I` with two big-endian bytes.
    pub fn serialize_i16(&mut self, v: i16) -> (r: Result<(), Error>)
        ensures
            r is Ok,
            final(self)@ == old(self)@ + spec_signed(v as int),
    {
        if -0x80 <= v && v <= 0x7f {
            self.serialize_i8(v as i8)
        } else if 0 <= v && v <= 0xff {
            self.serialize_u8(v as u8)
        } else {
            self.inner.push(marker::I16);
            let w: u16 = wire2(v);
            self.push_be2(w);
            proof {
                assert(self@ =~= old(self)@ + spec_signed(v as int));
            }
            Ok(())
        }
    }

    /// Emits a signed 32-bit integer through the signed narrowing path.
    pub fn serialize_i32(&mut self, v: i32) -> (r: Result<(), Error>)
        ensures
            r is Ok,
            final(self)@ == old(self)@ + spec_signed(v as int),
    {
        if -0x8000 <= v && v <= 0x7fff {
            self.serialize_i16(v as i16)
        } else {
            self.inner.push(marker::I32);
            let w: u32 = wire4(v);
            self.push_be4(w);
            proof {
                assert(self@ =~= old(self)@ + spec_signed(v as int));
            }
            Ok(())
        }
    }

    /// Emits a signed 64-bit integer through the signed narrowing path.
    pub fn serialize_i64(&mut self, v: i64) -> (r: Result<(), Error>)
        ensures
            r is Ok,
            final(self)@ == old(self)@ + spec_signed(v as int),
    {
        if -0x8000_0000 <= v && v <= 0x7fff_ffff {
            self.serialize_i32(v as i32)
        } else {
            self.inner.push(marker::I64);
            let w: u64 = wire8(v);
            self.push_be8(w);
            proof {
                assert(self@ =~= old(self)@ + spec_signed(v as int));
            }
            Ok(())
        }
    }

    /// Emits an unsigned 16-bit integer through the unsigned narrowing path:
    /// `U` when the value fits one byte, else onward through the signed
    /// markers.
    pub fn serialize_u16(&mut self, v: u16) -> (r: Result<(), Error>)
        ensures
            r is Ok,
            final(self)@ == old(self)@ + spec_unsigned(v as int),
    {
        if v <= 0xff {
            self.serialize_u8(v as u8)
        } else if v <= 0x7fff {
            self.serialize_i16(v as i16)
        } else {
            self.serialize_i32(v as i32)
        }
    }

    /// Emits an unsigned 32-bit integer through the unsigned narrowing path.
    pub fn serialize_u32(&mut self, v: u32) -> (r: Result<(), Error>)
        ensures
            r is Ok,
            final(self)@ == old(self)@ + spec_unsigned(v as int),
    {
        if v <= 0xffff {
            self.serialize_u16(v as u16)
        } else if v <= 0x7fff_ffff {
            self.serialize_i32(v as i32)
        } else {
            self.serialize_i64(v as i64)
        }
    }

    /// Emits an unsigned 64-bit integer through the unsigned narrowing path.
    /// Values beyond the signed 64-bit maximum take the high-precision
    /// fallback: the marker `H`, then the value's decimal digit string,
    /// itself length-prefixed like a string payload.
    pub fn serialize_u64(&mut self, v: u64) -> (r: Result<(), Error>)
        ensures
            r is Ok,
            final(self)@ == old(self)@ + spec_unsigned(v as int),
    {
        if v <= 0xffff_ffff {
            self.serialize_u32(v as u32)
        } else if v <= 0x7fff_ffff_ffff_ffff {
            self.serialize_i64(v as i64)
        } else {
            let mut digits: Vec<u8> = Vec::new();
            push_decimal(&mut digits, v);
            proof {
                lemma_dec_digits_len_u64(v as int);
            }
            self.inner.push(marker::HI_PRECISION);
            self.inner.push(marker::U8);
            self.inner.push(digits.len() as u8);
            self.push_raw(digits.as_slice());
            proof {
                reveal_with_fuel(spec_unsigned, 2);
                assert(self@ =~= old(self)@ + spec_unsigned(v as int));
            }
            Ok(())
        }
    }

    /// Emits a 32-bit IEEE-754 float given as its bit pattern: the marker
    /// `d` and the four big-endian bytes of the pattern. No narrowing
    /// between float widths.
    pub fn serialize_f32_bits(&mut self, bits: u32) -> (r: Result<(), Error>)
        ensures
            r is Ok,
            final(self)@ == old(self)@ + seq![marker::F32] + be4(bits as int),
    {
        self.inner.push(marker::F32);
        self.push_be4(bits);
        proof {
            assert(self@ =~= old(self)@ + seq![marker::F32] + be4(bits as int));
        }
        Ok(())
    }

    /// Emits a 64-bit IEEE-754 float given as its bit pattern: the marker
    /// `D` and the eight big-endian bytes of the pattern.
    pub fn serialize_f64_bits(&mut self, bits: u64) -> (r: Result<(), Error>)
        ensures
            r is Ok,
            final(self)@ == old(self)@ + seq![marker::F64] + be8(bits as int),
    {
        self.inner.push(marker::F64);
        self.push_be8(bits);
        proof {
            assert(self@ =~= old(self)@ + seq![marker::F64] + be8(bits as int));
        }
        Ok(())
    }

    /// Emits a char: ASCII scalars as the marker `C` and one raw byte,
    /// anything wider through the unsigned narrowing path.
    pub fn serialize_char(&mut self, v: char) -> (r: Result<(), Error>)
        ensures
            r is Ok,
            final(self)@ == old(self)@ + spec_char(v),
    {
        let u: u32 = v as u32;
        if u <= 0x7f {
            self.inner.push(marker::CHAR);
            self.inner.push(u as u8);
            proof {
                assert(self.inner@ =~= old(self).inner@ + spec_char(v));
            }
            Ok(())
        } else {
            self.serialize_u32(u)
        }
    }

    /// Emits a string: the marker `S`, the UTF-8 byte length through the
    /// unsigned narrowing path, then the raw UTF-8 bytes. No terminator.
    pub fn serialize_str(&mut self, v: &str) -> (r: Result<(), Error>)
        ensures
            r is Ok,
            final(self)@ == old(self)@ + spec_str(v@),
    {
        self.inner.push(marker::STRING);
        let bytes: &[u8] = v.as_bytes();
        let n: usize = bytes.len();
        let _ = self.serialize_u64(n as u64);
        self.push_raw(bytes);
        proof {
            assert(self@ =~= old(self)@ + spec_str(v@));
        }
        Ok(())
    }

    /// Emits a raw byte buffer as a strongly-typed array of unsigned bytes:
    /// the header `[$U#`, the count through the unsigned narrowing path,
    /// then the bytes verbatim.
    pub fn serialize_bytes(&mut self, v: &[u8]) -> (r: Result<(), Error>)
        ensures
            r is Ok,
            final(self)@ == old(self)@ + spec_byte_array(v@),
    {
        self.inner.push(marker::ARR_START);
        self.inner.push(marker::TYPE);
        self.inner.push(marker::U8);
        self.inner.push(marker::LENGTH);
        let n: usize = v.len();
        let _ = self.serialize_u64(n as u64);
        self.push_raw(v);
        proof {
            assert(self@ =~= old(self)@ + spec_byte_array(v@));
        }
        Ok(())
    }

    /// Emits an absent optional value: the null marker `Z`.
    pub fn serialize_none(&mut self) -> (r: Result<(), Error>)
        ensures
            r is Ok,
            final(self)@ == old(self)@ + seq![marker::NULL],
    {
        self.inner.push(marker::NULL);
        proof {
            assert(self.inner@ =~= old(self).inner@ + seq![marker::NULL]);
        }
        Ok(())
    }

    /// Emits a unit value: the null marker `Z`.
    pub fn serialize_unit(&mut self) -> (r: Result<(), Error>)
        ensures
            r is Ok,
            final(self)@ == old(self)@ + seq![marker::NULL],
    {
        self.serialize_none()
    }

    /// Emits a unit struct: the null marker `Z`; the name is decorative and
    /// not transmitted.
    pub fn serialize_unit_struct(&mut self, _name: &str) -> (r: Result<(), Error>)
        ensures
            r is Ok,
            final(self)@ == old(self)@ + seq![marker::NULL],
    {
        self.serialize_none()
    }

    /// Emits one scalar through the operation its kind calls for.
    pub fn serialize_scalar(&mut self, value: &Scalar) -> (r: Result<(), Error>)
        ensures
            r is Ok,
            final(self)@ == old(self)@ + spec_scalar(*value),
    {
        match value {
            Scalar::Bool(b) => self.serialize_bool(*b),
            Scalar::I8(x) => self.serialize_i8(*x),
            Scalar::I16(x) => self.serialize_i16(*x),
            Scalar::I32(x) => self.serialize_i32(*x),
            Scalar::I64(x) => self.serialize_i64(*x),
            Scalar::U8(x) => self.serialize_u8(*x),
            Scalar::U16(x) => self.serialize_u16(*x),
            Scalar::U32(x) => self.serialize_u32(*x),
            Scalar::U64(x) => self.serialize_u64(*x),
            Scalar::F32Bits(bits) => self.serialize_f32_bits(*bits),
            Scalar::F64Bits(bits) => self.serialize_f64_bits(*bits),
            Scalar::Char(c) => self.serialize_char(*c),
            Scalar::Str(s) => self.serialize_str(s.as_str()),
            Scalar::Bytes(b) => self.serialize_bytes(b.as_slice()),
            Scalar::Null => self.serialize_none(),
        }
    }

    /// Emits a present optional value. Transparent: the output is
    /// byte-identical to the output for the inner value alone, with no
    /// wrapper marker.
    pub fn serialize_some(&mut self, value: &Scalar) -> (r: Result<(), Error>)
        ensures
            r is Ok,
            final(self)@ == old(self)@ + spec_scalar(*value),
    {
        self.serialize_scalar(value)
    }

    /// Emits a newtype struct. Transparent, exactly as `serialize_some`:
    /// the wrapper leaves no trace in the bytes.
    pub fn serialize_newtype_struct(&mut self, _name: &str, value: &Scalar) -> (r: Result<
        (),
        Error,
    >)
        ensures
            r is Ok,
            final(self)@ == old(self)@ + spec_scalar(*value),
    {
        self.serialize_scalar(value)
    }

    /// Emits a unit enum variant as its zero-based ordinal through the
    /// unsigned narrowing path. The variant's name is not transmitted.
    pub fn serialize_unit_variant(
        &mut self,
        _name: &str,
        variant_index: u32,
        _variant: &str,
    ) -> (r: Result<(), Error>)
        ensures
            r is Ok,
            final(self)@ == old(self)@ + spec_unsigned(variant_index as int),
    {
        self.serialize_u32(variant_index)
    }

    /// Emits a newtype enum variant as a fixed-length array of two
    /// elements: the variant's ordinal, then the inner value.
    pub fn serialize_newtype_variant(
        &mut self,
        _name: &str,
        variant_index: u32,
        _variant: &str,
        value: &Scalar,
    ) -> (r: Result<(), Error>)
        ensures
            r is Ok,
            final(self)@ == old(self)@ + seq![marker::ARR_START, marker::LENGTH] + spec_unsigned(2)
                + spec_unsigned(variant_index as int) + spec_scalar(*value),
    {
        let tup: Static = match self.serialize_tuple(2) {
            Ok(t) => t,
            Err(e) => {
                return Err(e);
            },
        };
        let _ = self.serialize_u32(variant_index);
        let _ = tup.serialize_element(self, value);
        let _ = tup.end();
        proof {
            assert(self@ =~= old(self)@ + seq![marker::ARR_START, marker::LENGTH] + spec_unsigned(
                2,
            ) + spec_unsigned(variant_index as int) + spec_scalar(*value));
        }
        Ok(())
    }

    /// Opens a sequence region. With a known count the header is `[#` and
    /// the narrowed count, and the returned writer will close silently;
    /// with an unknown count the header is `[` alone and the writer will
    /// close with `]`.
    pub fn serialize_seq(&mut self, len: Option<usize>) -> (r: Result<Dynamic, Error>)
        ensures
            final(self)@ == old(self)@ + spec_open(
                marker::ARR_START,
                match len {
                    Option::Some(n) => Option::Some(n as int),
                    Option::None => Option::None,
                },
            ),
            (r matches Ok(w) && w.length_known == (len is Some) && w.end_marker
                == marker::ARR_END),
    {
        self.inner.push(marker::ARR_START);
        match len {
            Option::Some(n) => {
                self.inner.push(marker::LENGTH);
                let _ = self.serialize_u64(n as u64);
                proof {
                    assert(self@ =~= old(self)@ + spec_open(
                        marker::ARR_START,
                        Option::Some(n as int),
                    ));
                }
                Ok(Dynamic { length_known: true, end_marker: marker::ARR_END })
            },
            Option::None => {
                proof {
                    assert(self.inner@ =~= old(self).inner@ + spec_open(
                        marker::ARR_START,
                        Option::<int>::None,
                    ));
                }
                Ok(Dynamic { length_known: false, end_marker: marker::ARR_END })
            },
        }
    }

    /// Opens a map region: as `serialize_seq`, with `{` for the start
    /// marker and `}` for the unknown-count closer.
    pub fn serialize_map(&mut self, len: Option<usize>) -> (r: Result<Dynamic, Error>)
        ensures
            final(self)@ == old(self)@ + spec_open(
                marker::OBJ_START,
                match len {
                    Option::Some(n) => Option::Some(n as int),
                    Option::None => Option::None,
                },
            ),
            (r matches Ok(w) && w.length_known == (len is Some) && w.end_marker
                == marker::OBJ_END),
    {
        self.inner.push(marker::OBJ_START);
        match len {
            Option::Some(n) => {
                self.inner.push(marker::LENGTH);
                let _ = self.serialize_u64(n as u64);
                proof {
                    assert(self@ =~= old(self)@ + spec_open(
                        marker::OBJ_START,
                        Option::Some(n as int),
                    ));
                }
                Ok(Dynamic { length_known: true, end_marker: marker::OBJ_END })
            },
            Option::None => {
                proof {
                    assert(self.inner@ =~= old(self).inner@ + spec_open(
                        marker::OBJ_START,
                        Option::<int>::None,
                    ));
                }
                Ok(Dynamic { length_known: false, end_marker: marker::OBJ_END })
            },
        }
    }

    /// Opens a tuple region: always a known count, so the header is `[#`
    /// and the narrowed count, and the writer closes silently.
    pub fn serialize_tuple(&mut self, len: usize) -> (r: Result<Static, Error>)
        ensures
            r is Ok,
            final(self)@ == old(self)@ + seq![marker::ARR_START, marker::LENGTH] + spec_unsigned(
                len as int,
            ),
    {
        self.inner.push(marker::ARR_START);
        self.inner.push(marker::LENGTH);
        let _ = self.serialize_u64(len as u64);
        proof {
            assert(self@ =~= old(self)@ + seq![marker::ARR_START, marker::LENGTH] + spec_unsigned(
                len as int,
            ));
        }
        Ok(Static {})
    }

    /// Opens a tuple struct region: as `serialize_tuple`; the name is
    /// decorative and not transmitted.
    pub fn serialize_tuple_struct(&mut self, _name: &str, len: usize) -> (r: Result<Static, Error>)
        ensures
            r is Ok,
            final(self)@ == old(self)@ + seq![marker::ARR_START, marker::LENGTH] + spec_unsigned(
                len as int,
            ),
    {
        self.serialize_tuple(len)
    }

    /// Opens a tuple enum variant: a tuple of `len + 1` elements whose
    /// first element, the variant's ordinal, is written before control
    /// returns to the caller.
    pub fn serialize_tuple_variant(
        &mut self,
        _name: &str,
        variant_index: u32,
        _variant: &str,
        len: usize,
    ) -> (r: Result<Static, Error>)
        requires
            len < usize::MAX,
        ensures
            r is Ok,
            final(self)@ == old(self)@ + seq![marker::ARR_START, marker::LENGTH] + spec_unsigned(
                len + 1,
            ) + spec_unsigned(variant_index as int),
    {
        let tup: Static = match self.serialize_tuple(len + 1) {
            Ok(t) => t,
            Err(e) => {
                return Err(e);
            },
        };
        let _ = self.serialize_u32(variant_index);
        proof {
            assert(self@ =~= old(self)@ + seq![marker::ARR_START, marker::LENGTH] + spec_unsigned(
                len + 1,
            ) + spec_unsigned(variant_index as int));
        }
        Ok(tup)
    }

    /// Opens a struct region: as `serialize_tuple`; field names are not
    /// transmitted, only the field values in order.
    pub fn serialize_struct(&mut self, _name: &str, len: usize) -> (r: Result<Static, Error>)
        ensures
            r is Ok,
            final(self)@ == old(self)@ + seq![marker::ARR_START, marker::LENGTH] + spec_unsigned(
                len as int,
            ),
    {
        self.serialize_tuple(len)
    }

    /// Opens a struct enum variant: exactly as a tuple variant of the same
    /// length.
    pub fn serialize_struct_variant(
        &mut self,
        name: &str,
        variant_index: u32,
        variant: &str,
        len: usize,
    ) -> (r: Result<Static, Error>)
        requires
            len < usize::MAX,
        ensures
            r is Ok,
            final(self)@ == old(self)@ + seq![marker::ARR_START, marker::LENGTH] + spec_unsigned(
                len + 1,
            ) + spec_unsigned(variant_index as int),
    {
        self.serialize_tuple_variant(name, variant_index, variant, len)
    }
}

/// One scalar value, tagged with its kind: the closed protocol through
/// which a caller describes a value to the encoder. Floats travel as their
/// IEEE-754 bit patterns.
pub enum Scalar {
    /// A boolean.
    Bool(bool),
    /// A signed 8-bit integer.
    I8(i8),
    /// A signed 16-bit integer.
    I16(i16),
    /// A signed 32-bit integer.
    I32(i32),
    /// A signed 64-bit integer.
    I64(i64),
    /// An unsigned 8-bit integer.
    U8(u8),
    /// An unsigned 16-bit integer.
    U16(u16),
    /// An unsigned 32-bit integer.
    U32(u32),
    /// An unsigned 64-bit integer.
    U64(u64),
    /// A 32-bit IEEE-754 float, as its bit pattern.
    F32Bits(u32),
    /// A 64-bit IEEE-754 float, as its bit pattern.
    F64Bits(u64),
    /// A char.
    Char(char),
    /// A string.
    Str(String),
    /// A raw byte buffer.
    Bytes(Vec<u8>),
    /// An absent optional or unit value.
    Null,
}

/// The bytes written for one scalar: the meaning of each emission
/// operation, by kind.
pub open spec fn spec_scalar(v: Scalar) -> Seq<u8> {
    match v {
        Scalar::Bool(b) => seq![if b { marker::TRUE } else { marker::FALSE }],
        Scalar::I8(x) => spec_signed(x as int),
        Scalar::I16(x) => spec_signed(x as int),
        Scalar::I32(x) => spec_signed(x as int),
        Scalar::I64(x) => spec_signed(x as int),
        Scalar::U8(x) => spec_unsigned(x as int),
        Scalar::U16(x) => spec_unsigned(x as int),
        Scalar::U32(x) => spec_unsigned(x as int),
        Scalar::U64(x) => spec_unsigned(x as int),
        Scalar::F32Bits(bits) => seq![marker::F32] + be4(bits as int),
        Scalar::F64Bits(bits) => seq![marker::F64] + be8(bits as int),
        Scalar::Char(c) => spec_char(c),
        Scalar::Str(s) => spec_str(s@),
        Scalar::Bytes(b) => spec_byte_array(b@),
        Scalar::Null => seq![marker::NULL],
    }
}

/// The writer for a region whose element count was declared at open time:
/// elements are appended with no extra framing, and closing appends
/// nothing, because the count already written is authoritative.
pub struct Static {}

impl Static {
    /// Appends one element: exactly the element's own bytes, no framing.
    pub fn serialize_element(&self, ser: &mut Serializer, value: &Scalar) -> (r: Result<(), Error>)
        ensures
            r is Ok,
            final(ser)@ == old(ser)@ + spec_scalar(*value),
    {
        ser.serialize_scalar(value)
    }

    /// Appends one field, exactly as an element; the field's name is not
    /// transmitted.
    pub fn serialize_field(&self, ser: &mut Serializer, value: &Scalar) -> (r: Result<(), Error>)
        ensures
            r is Ok,
            final(ser)@ == old(ser)@ + spec_scalar(*value),
    {
        ser.serialize_scalar(value)
    }

    /// Closes the region. A no-op: the count written at open time tells
    /// the consumer when to stop.
    pub fn end(self) -> (r: Result<(), Error>)
        ensures
            r is Ok,
    {
        Ok(())
    }
}

/// The writer for a sequence or map region whose element count may or may
/// not have been declared at open time.
pub struct Dynamic {
    /// Whether the element count was written at open time.
    pub length_known: bool,
    /// The marker that closes the region when no count was written.
    pub end_marker: u8,
}

impl Dynamic {
    /// Appends one element: exactly the element's own bytes, no framing.
    pub fn serialize_element(&self, ser: &mut Serializer, value: &Scalar) -> (r: Result<(), Error>)
        ensures
            r is Ok,
            final(ser)@ == old(ser)@ + spec_scalar(*value),
    {
        ser.serialize_scalar(value)
    }

    /// Appends one map key. Keys must be strings: a string is written in
    /// the object-key form, the length then the raw UTF-8 bytes, with no
    /// `S` marker; any other kind is rejected with `KeyMustBeAString` and
    /// writes nothing.
    pub fn serialize_key(&self, ser: &mut Serializer, key: &Scalar) -> (r: Result<(), Error>)
        ensures
            (key matches Scalar::Str(s) ==> r is Ok && final(ser)@ == old(ser)@ + spec_key(s@)),
            (!(key matches Scalar::Str(_)) ==> (r matches Err(Error::KeyMustBeAString))
                && final(ser)@ == old(ser)@),
    {
        match key {
            Scalar::Str(s) => {
                let st: &str = s.as_str();
                let bytes: &[u8] = st.as_bytes();
                let n: usize = bytes.len();
                let _ = ser.serialize_u64(n as u64);
                ser.push_raw(bytes);
                proof {
                    assert(ser@ =~= old(ser)@ + spec_key(s@));
                }
                Ok(())
            },
            _ => Err(Error::KeyMustBeAString),
        }
    }

    /// Appends one map value through the ordinary encoder, right after its
    /// key.
    pub fn serialize_value(&self, ser: &mut Serializer, value: &Scalar) -> (r: Result<(), Error>)
        ensures
            r is Ok,
            final(ser)@ == old(ser)@ + spec_scalar(*value),
    {
        ser.serialize_scalar(value)
    }

    /// Closes the region: nothing when the count was declared at open
    /// time, the matching closing marker otherwise.
    pub fn end(self, ser: &mut Serializer) -> (r: Result<(), Error>)
        ensures
            r is Ok,
            final(ser)@ == old(ser)@ + spec_close(self.length_known, self.end_marker),
    {
        if !self.length_known {
            ser.inner.push(self.end_marker);
        }
        proof {
            assert(ser.inner@ =~= old(ser).inner@ + spec_close(self.length_known, self.end_marker));
        }
        Ok(())
    }
}

/// Appends the decimal ASCII digits of `v`, most significant first.
fn push_decimal(out: &mut Vec<u8>, v: u64)
    ensures
        final(out)@ == old(out)@ + dec_digits(v as int),
    decreases v,
{
    if v < 10 {
        out.push(0x30 + (v as u8));
    } else {
        push_decimal(out, v / 10);
        out.push(0x30 + ((v % 10) as u8));
        proof {
            assert(out@ =~= old(out)@ + dec_digits(v as int));
        }
    }
}

} // verus!
