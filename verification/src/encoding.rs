//! The byte-level meaning of every emission operation, as specification
//! functions, together with the laws that hold of them.
//!
//! All integers travel big-endian. Signed values below zero are written in
//! two's complement, which the specifications express through [`to_unsigned`]
//! and Euclidean division and remainder.

use vstd::prelude::*;

use crate::marker;

verus! {

/// The two's-complement image of `v` modulo `m`: `v` itself when it is
/// non-negative, `v + m` otherwise.
pub open spec fn to_unsigned(v: int, m: int) -> int {
    if v >= 0 {
        v
    } else {
        v + m
    }
}

/// The two big-endian bytes of `n`, for `0 <= n < 0x1_0000`.
pub open spec fn be2(n: int) -> Seq<u8> {
    seq![((n / 0x100) % 0x100) as u8, (n % 0x100) as u8]
}

/// The four big-endian bytes of `n`, for `0 <= n < 0x1_0000_0000`.
pub open spec fn be4(n: int) -> Seq<u8> {
    seq![
        ((n / 0x100_0000) % 0x100) as u8,
        ((n / 0x1_0000) % 0x100) as u8,
        ((n / 0x100) % 0x100) as u8,
        (n % 0x100) as u8,
    ]
}

/// The eight big-endian bytes of `n`, for `0 <= n < 0x1_0000_0000_0000_0000`.
pub open spec fn be8(n: int) -> Seq<u8> {
    seq![
        ((n / 0x100_0000_0000_0000) % 0x100) as u8,
        ((n / 0x1_0000_0000_0000) % 0x100) as u8,
        ((n / 0x100_0000_0000) % 0x100) as u8,
        ((n / 0x1_0000_0000) % 0x100) as u8,
        ((n / 0x100_0000) % 0x100) as u8,
        ((n / 0x1_0000) % 0x100) as u8,
        ((n / 0x100) % 0x100) as u8,
        (n % 0x100) as u8,
    ]
}

/// The decimal ASCII digits of `v`, most significant first, for `v >= 0`.
pub open spec fn dec_digits(v: int) -> Seq<u8>
    decreases v,
{
    if v < 10 {
        seq![(0x30 + (if v >= 0 { v } else { 0 })) as u8]
    } else {
        proof {
            assert(0 <= v / 10 < v) by (nonlinear_arith)
                requires v >= 10;
        }
        dec_digits(v / 10) + seq![(0x30 + (v % 10)) as u8]
    }
}

/// `10^n`.
pub open spec fn pow10(n: nat) -> int
    decreases n,
{
    if n == 0 {
        1
    } else {
        10 * pow10((n - 1) as nat)
    }
}

/// A number below `10^n` has at most `n` decimal digits.
pub proof fn lemma_dec_digits_len(v: int, n: nat)
    requires
        n >= 1,
        0 <= v < pow10(n),
    ensures
        1 <= dec_digits(v).len() <= n,
    decreases n,
{
    if v < 10 {
    } else {
        assert(pow10(n) == 10 * pow10((n - 1) as nat));
        assert(v / 10 < pow10((n - 1) as nat)) by (nonlinear_arith)
            requires v >= 10 && v < 10 * pow10((n - 1) as nat);
        assert(n >= 2) by {
            if n == 1 {
                assert(pow10(1nat) == 10);
            }
        }
        lemma_dec_digits_len(v / 10, (n - 1) as nat);
    }
}

/// Every number has at least one digit, and a number in the unsigned 64-bit
/// range has at most twenty.
pub proof fn lemma_dec_digits_len_u64(v: int)
    requires
        0 <= v <= u64::MAX,
    ensures
        1 <= dec_digits(v).len() <= 20,
{
    assert(pow10(20nat) == 0x56bc75e2d63100000) by {
        reveal_with_fuel(pow10, 21);
    }
    lemma_dec_digits_len(v, 20nat);
}

/// The bytes that the unsigned narrowing path writes for `v`, for
/// `0 <= v <= u64::MAX`: the smallest of the markers `U`, `I`, `l`, `L`
/// whose range holds `v`, then the value big-endian; beyond the signed
/// 64-bit maximum, the high-precision fallback `H` followed by the decimal
/// digit string of `v`, itself written as a length-prefixed string payload.
pub open spec fn spec_unsigned(v: int) -> Seq<u8>
    decreases v,
{
    if v <= 0xff {
        seq![marker::U8, (if v >= 0 { v } else { 0 }) as u8]
    } else if v <= 0x7fff {
        seq![marker::I16] + be2(v)
    } else if v <= 0x7fff_ffff {
        seq![marker::I32] + be4(v)
    } else if v <= 0x7fff_ffff_ffff_ffff {
        seq![marker::I64] + be8(v)
    } else {
        proof {
            lemma_dec_digits_below(v);
        }
        seq![marker::HI_PRECISION] + spec_unsigned(dec_digits(v).len() as int) + dec_digits(v)
    }
}

/// The digit count of `v` is far below `v` itself once `v` has two digits;
/// this bounds the recursion inside the high-precision branch.
pub proof fn lemma_dec_digits_below(v: int)
    requires
        v >= 10,
    ensures
        0 <= dec_digits(v).len() < v,
    decreases v,
{
    if v / 10 < 10 {
        assert(dec_digits(v).len() == dec_digits(v / 10).len() + 1);
    } else {
        assert(10 <= v / 10 < v) by (nonlinear_arith)
            requires v >= 100;
        lemma_dec_digits_below(v / 10);
        assert(v / 10 + 1 < v) by (nonlinear_arith)
            requires v >= 10;
    }
}

/// The bytes that the signed narrowing path writes for `v`, for
/// `i64::MIN <= v <= i64::MAX`: the smallest of the markers `i`, `U`, `I`,
/// `l`, `L` whose range holds `v`, then the value big-endian in two's
/// complement.
pub open spec fn spec_signed(v: int) -> Seq<u8> {
    if -0x80 <= v <= 0x7f {
        seq![marker::I8, to_unsigned(v, 0x100) as u8]
    } else if 0x80 <= v <= 0xff {
        seq![marker::U8, v as u8]
    } else if -0x8000 <= v <= 0x7fff {
        seq![marker::I16] + be2(to_unsigned(v, 0x1_0000))
    } else if -0x8000_0000 <= v <= 0x7fff_ffff {
        seq![marker::I32] + be4(to_unsigned(v, 0x1_0000_0000))
    } else {
        seq![marker::I64] + be8(to_unsigned(v, 0x1_0000_0000_0000_0000))
    }
}

/// The bytes written for a char: ASCII scalars travel as the marker `C` and
/// one raw byte; anything wider goes through the unsigned narrowing path as
/// its Unicode scalar value.
pub open spec fn spec_char(c: char) -> Seq<u8> {
    if c as int <= 0x7f {
        seq![marker::CHAR, c as u8]
    } else {
        spec_unsigned(c as int)
    }
}

/// The bytes written for a string: the marker `S`, the UTF-8 byte length
/// through the unsigned narrowing path, then the raw UTF-8 bytes verbatim.
/// No terminator.
pub open spec fn spec_str(chars: Seq<char>) -> Seq<u8> {
    seq![marker::STRING] + spec_unsigned(vstd::utf8::encode_utf8(chars).len() as int)
        + vstd::utf8::encode_utf8(chars)
}

/// The bytes written for a map key: as a string payload, but without the
/// `S` marker, which the object-key position implies.
pub open spec fn spec_key(chars: Seq<char>) -> Seq<u8> {
    spec_unsigned(vstd::utf8::encode_utf8(chars).len() as int) + vstd::utf8::encode_utf8(chars)
}

/// The bytes written for a raw byte buffer: the strongly-typed-array header
/// `[$U#`, the element count through the unsigned narrowing path, then the
/// bytes verbatim with no per-element markers.
pub open spec fn spec_byte_array(b: Seq<u8>) -> Seq<u8> {
    seq![marker::ARR_START, marker::TYPE, marker::U8, marker::LENGTH] + spec_unsigned(
        b.len() as int,
    ) + b
}

/// Whether the integer marker `m` can represent the value `v` losslessly.
pub open spec fn marker_holds(m: u8, v: int) -> bool {
    if m == marker::I8 {
        -0x80 <= v <= 0x7f
    } else if m == marker::U8 {
        0 <= v <= 0xff
    } else if m == marker::I16 {
        -0x8000 <= v <= 0x7fff
    } else if m == marker::I32 {
        -0x8000_0000 <= v <= 0x7fff_ffff
    } else if m == marker::I64 {
        -0x8000_0000_0000_0000 <= v <= 0x7fff_ffff_ffff_ffff
    } else if m == marker::HI_PRECISION {
        0 <= v <= 0xffff_ffff_ffff_ffff
    } else {
        false
    }
}

/// The place of each integer marker in the narrowing order
/// `i`, `U`, `I`, `l`, `L`, `H`.
pub open spec fn marker_rank(m: u8) -> int {
    if m == marker::I8 {
        0
    } else if m == marker::U8 {
        1
    } else if m == marker::I16 {
        2
    } else if m == marker::I32 {
        3
    } else if m == marker::I64 {
        4
    } else if m == marker::HI_PRECISION {
        5
    } else {
        6
    }
}

/// Narrowing minimality on the signed path: the marker written for `v` is
/// the earliest in the order `i`, `U`, `I`, `l`, `L`, `H` that can represent
/// `v` losslessly.
pub proof fn lemma_signed_narrowing_minimal(v: int)
    requires
        -0x8000_0000_0000_0000 <= v <= 0x7fff_ffff_ffff_ffff,
    ensures
        marker_holds(spec_signed(v)[0], v),
        forall|m: u8| marker_holds(m, v) ==> marker_rank(spec_signed(v)[0]) <= marker_rank(m),
{
}

/// Narrowing minimality on the unsigned path: the signed-8 marker is never
/// chosen (small unsigned values travel as `U`), and the marker written for
/// `v` is the earliest in the order `U`, `I`, `l`, `L`, `H` that can
/// represent `v` losslessly.
pub proof fn lemma_unsigned_narrowing_minimal(v: int)
    requires
        0 <= v <= 0xffff_ffff_ffff_ffff,
    ensures
        spec_unsigned(v)[0] != marker::I8,
        marker_holds(spec_unsigned(v)[0], v),
        forall|m: u8|
            marker_holds(m, v) && m != marker::I8 ==> marker_rank(spec_unsigned(v)[0])
                <= marker_rank(m),
{
}

/// The header that opens a sequence or map region: the start marker alone
/// when no count is declared, else the start marker, the count tag and the
/// narrowed element count.
pub open spec fn spec_open(start: u8, len: Option<int>) -> Seq<u8> {
    match len {
        Option::Some(n) => seq![start, marker::LENGTH] + spec_unsigned(n),
        Option::None => seq![start],
    }
}

/// The bytes that close a region: nothing when the element count was
/// declared at open time, the closing marker otherwise.
pub open spec fn spec_close(length_known: bool, end: u8) -> Seq<u8> {
    if length_known {
        Seq::empty()
    } else {
        seq![end]
    }
}

/// All element encodings of a region, in order.
pub open spec fn concat_elems(es: Seq<Seq<u8>>) -> Seq<u8>
    decreases es.len(),
{
    if es.len() == 0 {
        Seq::empty()
    } else {
        es[0] + concat_elems(es.drop_first())
    }
}

/// Framing round trip. A region opened with a known count `es.len()` and
/// closed after exactly that many elements consists of the header and the
/// element bytes alone: the close writes nothing. A region opened with an
/// unknown count always ends with the explicit closing marker, whatever the
/// number of elements.
pub proof fn lemma_framing_round_trip(start: u8, end: u8, es: Seq<Seq<u8>>)
    ensures
        spec_open(start, Option::Some(es.len() as int)) + concat_elems(es) + spec_close(true, end)
            == seq![start, marker::LENGTH] + spec_unsigned(es.len() as int) + concat_elems(es),
        spec_open(start, Option::None) + concat_elems(es) + spec_close(false, end) == seq![start]
            + concat_elems(es) + seq![end],
        (spec_open(start, Option::None) + concat_elems(es) + spec_close(false, end)).last() == end,
{
    let known = spec_open(start, Option::Some(es.len() as int)) + concat_elems(es) + spec_close(
        true,
        end,
    );
    assert(known =~= seq![start, marker::LENGTH] + spec_unsigned(es.len() as int) + concat_elems(
        es,
    ));
    let unknown = spec_open(start, Option::None) + concat_elems(es) + spec_close(false, end);
    assert(unknown =~= seq![start] + concat_elems(es) + seq![end]);
}

} // verus!
