//! Properties of the buffer operations, stated over the model of
//! [`crate::buffer::BufModel`] and proved once for every buffer state.
//!
//! The operations' own contracts describe each step exactly; the lemmas
//! here combine those steps: cursors advance by the bytes written or read,
//! a written chunk is read back bit-identically in either byte order, the
//! mark survives reads and is consumed by one reset, and a framed string's
//! prefix and payload come back as they went in.

use crate::buffer::BufModel;
use crate::codec::{
    bool_byte, bool_of_byte, i128_be, i128_le, i128_of_be, i128_of_le, i16_be, i16_le, i16_of_be,
    i16_of_le, i32_be, i32_le, i32_of_be, i32_of_le, i64_be, i64_le, i64_of_be, i64_of_le,
    i8_bytes, i8_of, lemma_bool_round_trip, lemma_i128_round_trip, lemma_i16_round_trip,
    lemma_i32_round_trip, lemma_i64_round_trip, lemma_i8_round_trip, lemma_u128_round_trip,
    lemma_u16_round_trip, lemma_u32_round_trip, lemma_u64_round_trip, lemma_u8_round_trip,
    u128_be, u128_le, u128_of_be, u128_of_le, u16_be, u16_le, u16_of_be, u16_of_le, u32_be,
    u32_le, u32_of_be, u32_of_le, u64_be, u64_le, u64_of_be, u64_of_le, u8_bytes, u8_of,
};
use vstd::prelude::*;
use vstd::utf8::{decode_utf8, encode_utf8, valid_utf8};

verus! {

broadcast use vstd::group_vstd_default;

/// Appending two chunks in sequence appends their concatenation: the write
/// cursor advances by the total number of bytes written, never less.
pub proof fn lemma_append_append(b: BufModel, s1: Seq<u8>, s2: Seq<u8>)
    ensures
        b.after_append(s1).after_append(s2) == b.after_append(s1 + s2),
        b.after_append(s1).after_append(s2).wpos == b.wpos + s1.len() + s2.len(),
{
    assert(b.after_append(s1).after_append(s2) =~= b.after_append(s1 + s2));
}

/// An append moves only the write cursor, and by exactly the number of
/// bytes appended; the read cursor, capacity and mark stay put.
pub proof fn lemma_append_cursor(b: BufModel, s: Seq<u8>)
    ensures
        b.after_append(s).wpos == b.wpos + s.len(),
        b.after_append(s).rpos == b.rpos,
        b.after_append(s).cap == b.cap,
        b.after_append(s).rmark == b.rmark,
        b.after_append(s).data.len() == b.data.len() + s.len(),
{
}

/// Two reads in sequence advance the read cursor by the total number of
/// bytes read; the write cursor and the stored bytes stay put.
pub proof fn lemma_read_read(b: BufModel, n1: nat, n2: nat)
    ensures
        b.after_read(n1).after_read(n2) == b.after_read(n1 + n2),
        b.after_read(n1).wpos == b.wpos,
        b.after_read(n1).data == b.data,
{
    assert(b.after_read(n1).after_read(n2) =~= b.after_read(n1 + n2));
}

/// Marking, reading any number of bytes, then resetting restores the read
/// cursor to its value at the mark and consumes the mark; a second reset
/// without a new mark changes nothing.
pub proof fn lemma_mark_read_reset(b: BufModel, n: nat)
    ensures
        b.after_mark().after_read(n).after_reset() == (BufModel { rmark: None, ..b }),
        (BufModel { rmark: None, ..b }).after_reset() == (BufModel { rmark: None, ..b }),
{
    assert(b.after_mark().after_read(n).after_reset() =~= (BufModel { rmark: None, ..b }));
}

/// A chunk appended at the physical end of the store occupies exactly the
/// range its write reported, byte for byte.
pub proof fn lemma_appended_bytes_at(b: BufModel, s: Seq<u8>)
    ensures
        b.after_append(s).bytes_at(b.data.len() as int, s.len() as int) == s,
{
    assert(b.after_append(s).bytes_at(b.data.len() as int, s.len() as int) =~= s);
}

/// Round trip through the buffer for booleans: the byte appended by a
/// boolean write reads back as the same boolean.
pub proof fn lemma_buf_bool_round_trip(b: BufModel, v: bool)
    ensures
        bool_of_byte(
            u8_of(b.after_append(u8_bytes(bool_byte(v))).bytes_at(b.data.len() as int, 1)),
        ) == v,
{
    lemma_appended_bytes_at(b, u8_bytes(bool_byte(v)));
    lemma_u8_round_trip(bool_byte(v));
    lemma_bool_round_trip(v);
}

/// Round trip through the buffer for `u8`: the byte appended by a write
/// reads back as the same value.
pub proof fn lemma_buf_u8_round_trip(b: BufModel, v: u8)
    ensures
        u8_of(b.after_append(u8_bytes(v)).bytes_at(b.data.len() as int, 1)) == v,
{
    lemma_appended_bytes_at(b, u8_bytes(v));
    lemma_u8_round_trip(v);
}

/// Round trip through the buffer for `i8`.
pub proof fn lemma_buf_i8_round_trip(b: BufModel, v: i8)
    ensures
        i8_of(b.after_append(i8_bytes(v)).bytes_at(b.data.len() as int, 1)) == v,
{
    lemma_appended_bytes_at(b, i8_bytes(v));
    lemma_i8_round_trip(v);
}

/// Round trip through the buffer for `u16`, in either byte order: the bytes
/// appended by a write read back bit-identically at the position where they
/// were written.
pub proof fn lemma_buf_u16_round_trip(b: BufModel, v: u16)
    ensures
        u16_of_be(b.after_append(u16_be(v)).bytes_at(b.data.len() as int, 2)) == v,
        u16_of_le(b.after_append(u16_le(v)).bytes_at(b.data.len() as int, 2)) == v,
{
    lemma_appended_bytes_at(b, u16_be(v));
    lemma_appended_bytes_at(b, u16_le(v));
    lemma_u16_round_trip(v);
}

/// Round trip through the buffer for `i16`, in either byte order.
pub proof fn lemma_buf_i16_round_trip(b: BufModel, v: i16)
    ensures
        i16_of_be(b.after_append(i16_be(v)).bytes_at(b.data.len() as int, 2)) == v,
        i16_of_le(b.after_append(i16_le(v)).bytes_at(b.data.len() as int, 2)) == v,
{
    lemma_appended_bytes_at(b, i16_be(v));
    lemma_appended_bytes_at(b, i16_le(v));
    lemma_i16_round_trip(v);
}

/// Round trip through the buffer for `u32`, in either byte order.
pub proof fn lemma_buf_u32_round_trip(b: BufModel, v: u32)
    ensures
        u32_of_be(b.after_append(u32_be(v)).bytes_at(b.data.len() as int, 4)) == v,
        u32_of_le(b.after_append(u32_le(v)).bytes_at(b.data.len() as int, 4)) == v,
{
    lemma_appended_bytes_at(b, u32_be(v));
    lemma_appended_bytes_at(b, u32_le(v));
    lemma_u32_round_trip(v);
}

/// Round trip through the buffer for `i32`, in either byte order.
pub proof fn lemma_buf_i32_round_trip(b: BufModel, v: i32)
    ensures
        i32_of_be(b.after_append(i32_be(v)).bytes_at(b.data.len() as int, 4)) == v,
        i32_of_le(b.after_append(i32_le(v)).bytes_at(b.data.len() as int, 4)) == v,
{
    lemma_appended_bytes_at(b, i32_be(v));
    lemma_appended_bytes_at(b, i32_le(v));
    lemma_i32_round_trip(v);
}

/// Round trip through the buffer for `u64`, in either byte order.
pub proof fn lemma_buf_u64_round_trip(b: BufModel, v: u64)
    ensures
        u64_of_be(b.after_append(u64_be(v)).bytes_at(b.data.len() as int, 8)) == v,
        u64_of_le(b.after_append(u64_le(v)).bytes_at(b.data.len() as int, 8)) == v,
{
    lemma_appended_bytes_at(b, u64_be(v));
    lemma_appended_bytes_at(b, u64_le(v));
    lemma_u64_round_trip(v);
}

/// Round trip through the buffer for `i64`, in either byte order.
pub proof fn lemma_buf_i64_round_trip(b: BufModel, v: i64)
    ensures
        i64_of_be(b.after_append(i64_be(v)).bytes_at(b.data.len() as int, 8)) == v,
        i64_of_le(b.after_append(i64_le(v)).bytes_at(b.data.len() as int, 8)) == v,
{
    lemma_appended_bytes_at(b, i64_be(v));
    lemma_appended_bytes_at(b, i64_le(v));
    lemma_i64_round_trip(v);
}

/// Round trip through the buffer for `u128`, in either byte order.
pub proof fn lemma_buf_u128_round_trip(b: BufModel, v: u128)
    ensures
        u128_of_be(b.after_append(u128_be(v)).bytes_at(b.data.len() as int, 16)) == v,
        u128_of_le(b.after_append(u128_le(v)).bytes_at(b.data.len() as int, 16)) == v,
{
    lemma_appended_bytes_at(b, u128_be(v));
    lemma_appended_bytes_at(b, u128_le(v));
    lemma_u128_round_trip(v);
}

/// Round trip through the buffer for `i128`, in either byte order.
pub proof fn lemma_buf_i128_round_trip(b: BufModel, v: i128)
    ensures
        i128_of_be(b.after_append(i128_be(v)).bytes_at(b.data.len() as int, 16)) == v,
        i128_of_le(b.after_append(i128_le(v)).bytes_at(b.data.len() as int, 16)) == v,
{
    lemma_appended_bytes_at(b, i128_be(v));
    lemma_appended_bytes_at(b, i128_le(v));
    lemma_i128_round_trip(v);
}

/// Framed-string round trip over the model, for a two-byte big-endian
/// length prefix: after appending the prefix and the UTF-8 bytes of a
/// string of at most `u16::MAX` bytes, the prefix reads back as the byte
/// length and the payload region holds valid UTF-8 that decodes to the
/// original characters.
pub proof fn lemma_string_frame_round_trip(b: BufModel, cs: Seq<char>)
    requires
        encode_utf8(cs).len() <= u16::MAX,
    ensures
        ({
            let payload = encode_utf8(cs);
            let b2 = b.after_append(u16_be(payload.len() as u16) + payload);
            &&& u16_of_be(b2.bytes_at(b.data.len() as int, 2)) == payload.len()
            &&& valid_utf8(b2.bytes_at(b.data.len() as int + 2, payload.len() as int))
            &&& decode_utf8(b2.bytes_at(b.data.len() as int + 2, payload.len() as int)) == cs
        }),
{
    let payload = encode_utf8(cs);
    let b2 = b.after_append(u16_be(payload.len() as u16) + payload);
    lemma_u16_round_trip(payload.len() as u16);
    vstd::utf8::encode_utf8_valid_utf8(cs);
    vstd::utf8::encode_utf8_decode_utf8(cs);
    assert(b2.bytes_at(b.data.len() as int, 2) =~= u16_be(payload.len() as u16));
    assert(b2.bytes_at(b.data.len() as int + 2, payload.len() as int) =~= payload);
}


/// The model after appending each chunk of a sequence of writes in turn.
pub open spec fn append_all(b: BufModel, chunks: Seq<Seq<u8>>) -> BufModel
    decreases chunks.len(),
{
    if chunks.len() == 0 {
        b
    } else {
        append_all(b.after_append(chunks.first()), chunks.drop_first())
    }
}

/// Total byte count of a sequence of chunks.
pub open spec fn total_len(chunks: Seq<Seq<u8>>) -> nat
    decreases chunks.len(),
{
    if chunks.len() == 0 {
        0
    } else {
        total_len(chunks.drop_first()) + chunks.first().len()
    }
}

/// After any sequence of writes the write cursor equals its starting value
/// plus the total number of bytes written, and the read cursor has not
/// moved: the readable span `wpos - rpos` grew by exactly that total.
pub proof fn lemma_append_sequence_cursor(b: BufModel, chunks: Seq<Seq<u8>>)
    ensures
        append_all(b, chunks).wpos == b.wpos + total_len(chunks),
        append_all(b, chunks).rpos == b.rpos,
    decreases chunks.len(),
{
    if chunks.len() != 0 {
        lemma_append_sequence_cursor(b.after_append(chunks.first()), chunks.drop_first());
    }
}

/// Every buffer operation preserves the invariant: appends grow the store
/// at least as fast as the write cursor, reads, cursor moves and the mark
/// leave both alone, and a positional overwrite never shrinks the store.
pub proof fn lemma_operations_preserve_inv(b: BufModel, s: Seq<u8>, n: nat, v: nat, pos: int)
    requires
        b.inv(),
        0 <= pos,
    ensures
        b.after_append(s).inv(),
        b.after_read(n).inv(),
        b.with_rpos(v).inv(),
        b.after_mark().inv(),
        b.after_reset().inv(),
        b.with_store(pos, s).inv(),
{
}

} // verus!
