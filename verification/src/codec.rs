//! Byte-level encodings of the fixed-width scalars.
//!
//! Every buffer operation is specified against the functions here: the
//! little-endian encodings come from `vstd::bytes`, a big-endian encoding is
//! the reverse of the little-endian one, and a signed value is encoded as the
//! unsigned value with the same two's-complement bit pattern.

use vstd::bytes::*;
use vstd::prelude::*;

verus! {

broadcast use vstd::seq::group_seq_axioms;

// --- single bytes ---

/// The one-byte encoding of a `u8` (the same in either byte order).
pub open spec fn u8_bytes(x: u8) -> Seq<u8> {
    seq![x]
}

/// The `u8` read from a one-byte sequence.
pub open spec fn u8_of(s: Seq<u8>) -> u8 {
    s[0]
}

/// The one-byte encoding of a boolean: `0x01` for true, `0x00` for false.
pub open spec fn bool_byte(b: bool) -> u8 {
    if b {
        1u8
    } else {
        0u8
    }
}

/// The boolean read from a byte: exactly `0x01` means true.
pub open spec fn bool_of_byte(y: u8) -> bool {
    y == 1u8
}

// --- unsigned scalars, both byte orders ---

/// Little-endian bytes of a `u16`.
pub open spec fn u16_le(x: u16) -> Seq<u8> {
    spec_u16_to_le_bytes(x)
}

/// Big-endian bytes of a `u16`: most significant byte first.
pub open spec fn u16_be(x: u16) -> Seq<u8> {
    spec_u16_to_le_bytes(x).reverse()
}

/// The `u16` read from two little-endian bytes.
pub open spec fn u16_of_le(s: Seq<u8>) -> u16 {
    spec_u16_from_le_bytes(s)
}

/// The `u16` read from two big-endian bytes.
pub open spec fn u16_of_be(s: Seq<u8>) -> u16 {
    spec_u16_from_le_bytes(s.reverse())
}

/// Little-endian bytes of a `u32`.
pub open spec fn u32_le(x: u32) -> Seq<u8> {
    spec_u32_to_le_bytes(x)
}

/// Big-endian bytes of a `u32`: most significant byte first.
pub open spec fn u32_be(x: u32) -> Seq<u8> {
    spec_u32_to_le_bytes(x).reverse()
}

/// The `u32` read from four little-endian bytes.
pub open spec fn u32_of_le(s: Seq<u8>) -> u32 {
    spec_u32_from_le_bytes(s)
}

/// The `u32` read from four big-endian bytes.
pub open spec fn u32_of_be(s: Seq<u8>) -> u32 {
    spec_u32_from_le_bytes(s.reverse())
}

/// Little-endian bytes of a `u64`.
pub open spec fn u64_le(x: u64) -> Seq<u8> {
    spec_u64_to_le_bytes(x)
}

/// Big-endian bytes of a `u64`: most significant byte first.
pub open spec fn u64_be(x: u64) -> Seq<u8> {
    spec_u64_to_le_bytes(x).reverse()
}

/// The `u64` read from eight little-endian bytes.
pub open spec fn u64_of_le(s: Seq<u8>) -> u64 {
    spec_u64_from_le_bytes(s)
}

/// The `u64` read from eight big-endian bytes.
pub open spec fn u64_of_be(s: Seq<u8>) -> u64 {
    spec_u64_from_le_bytes(s.reverse())
}

/// Little-endian bytes of a `u128`.
pub open spec fn u128_le(x: u128) -> Seq<u8> {
    spec_u128_to_le_bytes(x)
}

/// Big-endian bytes of a `u128`: most significant byte first.
pub open spec fn u128_be(x: u128) -> Seq<u8> {
    spec_u128_to_le_bytes(x).reverse()
}

/// The `u128` read from sixteen little-endian bytes.
pub open spec fn u128_of_le(s: Seq<u8>) -> u128 {
    spec_u128_from_le_bytes(s)
}

/// The `u128` read from sixteen big-endian bytes.
pub open spec fn u128_of_be(s: Seq<u8>) -> u128 {
    spec_u128_from_le_bytes(s.reverse())
}

// --- two's-complement bit patterns of the signed scalars ---

/// The `u8` with the same bit pattern as an `i8`.
pub open spec fn to_bits_i8(v: i8) -> u8 {
    if v >= 0 {
        v as u8
    } else {
        (v + 0x100) as u8
    }
}

/// The `i8` with the same bit pattern as a `u8`.
pub open spec fn from_bits_i8(u: u8) -> i8 {
    if u < 0x80 {
        u as i8
    } else {
        (u - 0x100) as i8
    }
}

/// The `u16` with the same bit pattern as an `i16`.
pub open spec fn to_bits_i16(v: i16) -> u16 {
    if v >= 0 {
        v as u16
    } else {
        (v + 0x1_0000) as u16
    }
}

/// The `i16` with the same bit pattern as a `u16`.
pub open spec fn from_bits_i16(u: u16) -> i16 {
    if u < 0x8000 {
        u as i16
    } else {
        (u - 0x1_0000) as i16
    }
}

/// The `u32` with the same bit pattern as an `i32`.
pub open spec fn to_bits_i32(v: i32) -> u32 {
    if v >= 0 {
        v as u32
    } else {
        (v + 0x1_0000_0000) as u32
    }
}

/// The `i32` with the same bit pattern as a `u32`.
pub open spec fn from_bits_i32(u: u32) -> i32 {
    if u < 0x8000_0000 {
        u as i32
    } else {
        (u - 0x1_0000_0000) as i32
    }
}

/// The `u64` with the same bit pattern as an `i64`.
pub open spec fn to_bits_i64(v: i64) -> u64 {
    if v >= 0 {
        v as u64
    } else {
        (v + 0x1_0000_0000_0000_0000) as u64
    }
}

/// The `i64` with the same bit pattern as a `u64`.
pub open spec fn from_bits_i64(u: u64) -> i64 {
    if u < 0x8000_0000_0000_0000 {
        u as i64
    } else {
        (u - 0x1_0000_0000_0000_0000) as i64
    }
}

/// The `u128` with the same bit pattern as an `i128`.
pub open spec fn to_bits_i128(v: i128) -> u128 {
    if v >= 0 {
        v as u128
    } else {
        (v + 0x1_0000_0000_0000_0000_0000_0000_0000_0000) as u128
    }
}

/// The `i128` with the same bit pattern as a `u128`.
pub open spec fn from_bits_i128(u: u128) -> i128 {
    if u < 0x8000_0000_0000_0000_0000_0000_0000_0000 {
        u as i128
    } else {
        (u - 0x1_0000_0000_0000_0000_0000_0000_0000_0000) as i128
    }
}

// --- byte encodings of the signed scalars ---

/// The one-byte encoding of an `i8`.
pub open spec fn i8_bytes(v: i8) -> Seq<u8> {
    u8_bytes(to_bits_i8(v))
}

/// The `i8` read from a one-byte sequence.
pub open spec fn i8_of(s: Seq<u8>) -> i8 {
    from_bits_i8(u8_of(s))
}

/// Little-endian bytes of an `i16`.
pub open spec fn i16_le(v: i16) -> Seq<u8> {
    u16_le(to_bits_i16(v))
}

/// Big-endian bytes of an `i16`.
pub open spec fn i16_be(v: i16) -> Seq<u8> {
    u16_be(to_bits_i16(v))
}

/// The `i16` read from two little-endian bytes.
pub open spec fn i16_of_le(s: Seq<u8>) -> i16 {
    from_bits_i16(u16_of_le(s))
}

/// The `i16` read from two big-endian bytes.
pub open spec fn i16_of_be(s: Seq<u8>) -> i16 {
    from_bits_i16(u16_of_be(s))
}

/// Little-endian bytes of an `i32`.
pub open spec fn i32_le(v: i32) -> Seq<u8> {
    u32_le(to_bits_i32(v))
}

/// Big-endian bytes of an `i32`.
pub open spec fn i32_be(v: i32) -> Seq<u8> {
    u32_be(to_bits_i32(v))
}

/// The `i32` read from four little-endian bytes.
pub open spec fn i32_of_le(s: Seq<u8>) -> i32 {
    from_bits_i32(u32_of_le(s))
}

/// The `i32` read from four big-endian bytes.
pub open spec fn i32_of_be(s: Seq<u8>) -> i32 {
    from_bits_i32(u32_of_be(s))
}

/// Little-endian bytes of an `i64`.
pub open spec fn i64_le(v: i64) -> Seq<u8> {
    u64_le(to_bits_i64(v))
}

/// Big-endian bytes of an `i64`.
pub open spec fn i64_be(v: i64) -> Seq<u8> {
    u64_be(to_bits_i64(v))
}

/// The `i64` read from eight little-endian bytes.
pub open spec fn i64_of_le(s: Seq<u8>) -> i64 {
    from_bits_i64(u64_of_le(s))
}

/// The `i64` read from eight big-endian bytes.
pub open spec fn i64_of_be(s: Seq<u8>) -> i64 {
    from_bits_i64(u64_of_be(s))
}

/// Little-endian bytes of an `i128`.
pub open spec fn i128_le(v: i128) -> Seq<u8> {
    u128_le(to_bits_i128(v))
}

/// Big-endian bytes of an `i128`.
pub open spec fn i128_be(v: i128) -> Seq<u8> {
    u128_be(to_bits_i128(v))
}

/// The `i128` read from sixteen little-endian bytes.
pub open spec fn i128_of_le(s: Seq<u8>) -> i128 {
    from_bits_i128(u128_of_le(s))
}

/// The `i128` read from sixteen big-endian bytes.
pub open spec fn i128_of_be(s: Seq<u8>) -> i128 {
    from_bits_i128(u128_of_be(s))
}

// --- executable bit-pattern conversions ---

/// Reinterprets an `i8` as the `u8` with the same bits.
pub fn i8_to_bits(v: i8) -> (r: u8)
    ensures
        r == to_bits_i8(v),
{
    if v >= 0 {
        v as u8
    } else {
        ((v as i16) + 0x100) as u8
    }
}

/// Reinterprets a `u8` as the `i8` with the same bits.
pub fn i8_from_bits(u: u8) -> (r: i8)
    ensures
        r == from_bits_i8(u),
{
    if u < 0x80 {
        u as i8
    } else {
        ((u as i16) - 0x100) as i8
    }
}

/// Reinterprets an `i16` as the `u16` with the same bits.
pub fn i16_to_bits(v: i16) -> (r: u16)
    ensures
        r == to_bits_i16(v),
{
    if v >= 0 {
        v as u16
    } else {
        ((v as i32) + 0x1_0000) as u16
    }
}

/// Reinterprets a `u16` as the `i16` with the same bits.
pub fn i16_from_bits(u: u16) -> (r: i16)
    ensures
        r == from_bits_i16(u),
{
    if u < 0x8000 {
        u as i16
    } else {
        ((u as i32) - 0x1_0000) as i16
    }
}

/// Reinterprets an `i32` as the `u32` with the same bits.
pub fn i32_to_bits(v: i32) -> (r: u32)
    ensures
        r == to_bits_i32(v),
{
    if v >= 0 {
        v as u32
    } else {
        ((v as i64) + 0x1_0000_0000) as u32
    }
}

/// Reinterprets a `u32` as the `i32` with the same bits.
pub fn i32_from_bits(u: u32) -> (r: i32)
    ensures
        r == from_bits_i32(u),
{
    if u < 0x8000_0000 {
        u as i32
    } else {
        ((u as i64) - 0x1_0000_0000) as i32
    }
}

/// Reinterprets an `i64` as the `u64` with the same bits.
pub fn i64_to_bits(v: i64) -> (r: u64)
    ensures
        r == to_bits_i64(v),
{
    if v >= 0 {
        v as u64
    } else {
        ((v as i128) + 0x1_0000_0000_0000_0000) as u64
    }
}

/// Reinterprets a `u64` as the `i64` with the same bits.
pub fn i64_from_bits(u: u64) -> (r: i64)
    ensures
        r == from_bits_i64(u),
{
    if u < 0x8000_0000_0000_0000 {
        u as i64
    } else {
        ((u as i128) - 0x1_0000_0000_0000_0000) as i64
    }
}

/// Reinterprets an `i128` as the `u128` with the same bits.
pub fn i128_to_bits(v: i128) -> (r: u128)
    ensures
        r == to_bits_i128(v),
{
    if v >= 0 {
        v as u128
    } else {
        let w: u128 = (-(v + 1)) as u128;
        u128::MAX - w
    }
}

/// Reinterprets a `u128` as the `i128` with the same bits.
pub fn i128_from_bits(u: u128) -> (r: i128)
    ensures
        r == from_bits_i128(u),
{
    if u < 0x8000_0000_0000_0000_0000_0000_0000_0000 {
        u as i128
    } else {
        let w: u128 = u128::MAX - u;
        -(w as i128) - 1
    }
}

// --- round-trip laws ---

/// Writing then reading a `u8` gives the value back, in either byte order.
pub proof fn lemma_u8_round_trip(x: u8)
    ensures
        u8_bytes(x).len() == 1,
        u8_of(u8_bytes(x)) == x,
{
}

/// Writing then reading a boolean byte gives the value back.
pub proof fn lemma_bool_round_trip(b: bool)
    ensures
        bool_of_byte(bool_byte(b)) == b,
{
}

/// Reversing a sequence twice gives the sequence back.
pub proof fn lemma_reverse_reverse(s: Seq<u8>)
    ensures
        s.reverse().reverse() == s,
{
    assert(s.reverse().reverse() =~= s);
}

/// Writing then reading a `u16` gives the value back, in either byte order.
pub proof fn lemma_u16_round_trip(x: u16)
    ensures
        u16_le(x).len() == 2,
        u16_be(x).len() == 2,
        u16_of_le(u16_le(x)) == x,
        u16_of_be(u16_be(x)) == x,
{
    lemma_auto_spec_u16_to_from_le_bytes();
    lemma_reverse_reverse(u16_le(x));
}

/// Writing then reading a `u32` gives the value back, in either byte order.
pub proof fn lemma_u32_round_trip(x: u32)
    ensures
        u32_le(x).len() == 4,
        u32_be(x).len() == 4,
        u32_of_le(u32_le(x)) == x,
        u32_of_be(u32_be(x)) == x,
{
    lemma_auto_spec_u32_to_from_le_bytes();
    lemma_reverse_reverse(u32_le(x));
}

/// Writing then reading a `u64` gives the value back, in either byte order.
pub proof fn lemma_u64_round_trip(x: u64)
    ensures
        u64_le(x).len() == 8,
        u64_be(x).len() == 8,
        u64_of_le(u64_le(x)) == x,
        u64_of_be(u64_be(x)) == x,
{
    lemma_auto_spec_u64_to_from_le_bytes();
    lemma_reverse_reverse(u64_le(x));
}

/// Writing then reading a `u128` gives the value back, in either byte order.
pub proof fn lemma_u128_round_trip(x: u128)
    ensures
        u128_le(x).len() == 16,
        u128_be(x).len() == 16,
        u128_of_le(u128_le(x)) == x,
        u128_of_be(u128_be(x)) == x,
{
    lemma_auto_spec_u128_to_from_le_bytes();
    lemma_reverse_reverse(u128_le(x));
}

/// Writing then reading an `i8` gives the value back.
pub proof fn lemma_i8_round_trip(v: i8)
    ensures
        i8_bytes(v).len() == 1,
        i8_of(i8_bytes(v)) == v,
{
    lemma_u8_round_trip(to_bits_i8(v));
}

/// Writing then reading an `i16` gives the value back, in either byte order.
pub proof fn lemma_i16_round_trip(v: i16)
    ensures
        i16_le(v).len() == 2,
        i16_be(v).len() == 2,
        i16_of_le(i16_le(v)) == v,
        i16_of_be(i16_be(v)) == v,
{
    lemma_u16_round_trip(to_bits_i16(v));
}

/// Writing then reading an `i32` gives the value back, in either byte order.
pub proof fn lemma_i32_round_trip(v: i32)
    ensures
        i32_le(v).len() == 4,
        i32_be(v).len() == 4,
        i32_of_le(i32_le(v)) == v,
        i32_of_be(i32_be(v)) == v,
{
    lemma_u32_round_trip(to_bits_i32(v));
}

/// Writing then reading an `i64` gives the value back, in either byte order.
pub proof fn lemma_i64_round_trip(v: i64)
    ensures
        i64_le(v).len() == 8,
        i64_be(v).len() == 8,
        i64_of_le(i64_le(v)) == v,
        i64_of_be(i64_be(v)) == v,
{
    lemma_u64_round_trip(to_bits_i64(v));
}

/// Writing then reading an `i128` gives the value back, in either byte order.
pub proof fn lemma_i128_round_trip(v: i128)
    ensures
        i128_le(v).len() == 16,
        i128_be(v).len() == 16,
        i128_of_le(i128_le(v)) == v,
        i128_of_be(i128_be(v)) == v,
{
    lemma_u128_round_trip(to_bits_i128(v));
}

} // verus!
