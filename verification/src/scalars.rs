//! Typed accessors of the buffer: fixed-width scalars at the cursors
//! (`read_*`/`write_*`), peeks at the read cursor (`get_*`) and positional
//! overwrites (`set_*`), each in big- and little-endian form.
//!
//! Every operation is specified against the encodings of [`crate::codec`]:
//! a write appends exactly the encoding of its argument, a read returns
//! exactly the decoding of the bytes at the read cursor, and a positional
//! `set_*` overwrites the encoding at the given offset, enforcing the
//! advisory capacity.

use crate::buffer::{ByteBuf, ByteResult};
use crate::codec::{
    bool_byte, bool_of_byte, i128_be, i128_from_bits, i128_le, i128_of_be, i128_of_le,
    i128_to_bits, i16_be, i16_from_bits, i16_le, i16_of_be, i16_of_le, i16_to_bits, i32_be,
    i32_from_bits, i32_le, i32_of_be, i32_of_le, i32_to_bits, i64_be, i64_from_bits, i64_le,
    i64_of_be, i64_of_le, i64_to_bits, i8_bytes, i8_from_bits, i8_of, i8_to_bits, u128_be,
    u128_le, u128_of_be, u128_of_le, u16_be, u16_le, u16_of_be, u16_of_le, u32_be, u32_le,
    u32_of_be, u32_of_le, u64_be, u64_le, u64_of_be, u64_of_le, u8_bytes, u8_of,
};
use crate::error::ByteBufError;
use vstd::bytes::*;
use vstd::prelude::*;

verus! {

broadcast use vstd::group_vstd_default;

impl ByteBuf {
    // --- booleans and single bytes ---

    /// Peeks the boolean at the read cursor: exactly `0x01` is true.
    pub fn get_bool(&self) -> (r: bool)
        requires
            self@.rpos + 1 <= self@.data.len(),
        ensures
            r == bool_of_byte(u8_of(self@.bytes_at(self@.rpos as int, 1))),
    {
        let b = self.byte_at(self.get_reader_index());
        b == 0x01u8
    }

    /// Reads the boolean at the read cursor and advances past it.
    pub fn read_bool(&mut self) -> (r: bool)
        requires
            old(self)@.rpos + 1 <= old(self)@.data.len(),
        ensures
            final(self)@ == old(self)@.after_read(1),
            r == bool_of_byte(u8_of(old(self)@.bytes_at(old(self)@.rpos as int, 1))),
    {
        let r = self.get_bool();
        self.advance_read(1);
        r
    }

    /// Appends a boolean as one byte: `0x01` for true, `0x00` for false.
    pub fn write_bool(&mut self, v: bool) -> (r: ByteResult<usize>)
        requires
            old(self)@.wpos + 1 <= usize::MAX,
        ensures
            final(self)@ == old(self)@.after_append(u8_bytes(bool_byte(v))),
            r == Ok::<usize, ByteBufError>(1usize),
    {
        let mut b: Vec<u8> = Vec::new();
        if v {
            b.push(0x01);
        } else {
            b.push(0x00);
        }
        assert(b@ =~= u8_bytes(bool_byte(v)));
        self.append_slice(b.as_slice());
        Ok(1)
    }

    /// Peeks the `u8` at the read cursor.
    pub fn get_u8(&self) -> (r: u8)
        requires
            self@.rpos + 1 <= self@.data.len(),
        ensures
            r == u8_of(self@.bytes_at(self@.rpos as int, 1)),
    {
        self.byte_at(self.get_reader_index())
    }

    /// Reads the `u8` at the read cursor and advances past it.
    pub fn read_u8(&mut self) -> (r: u8)
        requires
            old(self)@.rpos + 1 <= old(self)@.data.len(),
        ensures
            final(self)@ == old(self)@.after_read(1),
            r == u8_of(old(self)@.bytes_at(old(self)@.rpos as int, 1)),
    {
        let r = self.get_u8();
        self.advance_read(1);
        r
    }

    /// Appends a `u8` (a single byte has the same form in either order).
    pub fn write_u8_be(&mut self, v: u8) -> (r: ByteResult<usize>)
        requires
            old(self)@.wpos + 1 <= usize::MAX,
        ensures
            final(self)@ == old(self)@.after_append(u8_bytes(v)),
            r == Ok::<usize, ByteBufError>(1usize),
    {
        let mut b: Vec<u8> = Vec::new();
        b.push(v);
        assert(b@ =~= u8_bytes(v));
        self.append_slice(b.as_slice());
        Ok(1)
    }

    /// Appends a `u8` (a single byte has the same form in either order).
    pub fn write_u8_le(&mut self, v: u8) -> (r: ByteResult<usize>)
        requires
            old(self)@.wpos + 1 <= usize::MAX,
        ensures
            final(self)@ == old(self)@.after_append(u8_bytes(v)),
            r == Ok::<usize, ByteBufError>(1usize),
    {
        let mut b: Vec<u8> = Vec::new();
        b.push(v);
        assert(b@ =~= u8_bytes(v));
        self.append_slice(b.as_slice());
        Ok(1)
    }

    /// Overwrites the byte at absolute position `wid`, enforcing the
    /// advisory capacity; cursors do not move.
    pub fn set_u8_be(&mut self, wid: usize, v: u8) -> (r: ByteResult<u8>)
        ensures
            (wid + 1 > old(self)@.cap) == (r is Err),
            r is Err ==> final(self)@ == old(self)@,
            wid + 1 <= old(self)@.cap ==> final(self)@ == old(self)@.with_store(
                wid as int,
                u8_bytes(v),
            ) && r == Ok::<u8, ByteBufError>(v),
    {
        if self.capacity() < 1 || wid > self.capacity() - 1 {
            return Err(ByteBufError::new("wid out of capacity".to_owned()));
        }
        let mut b: Vec<u8> = Vec::new();
        b.push(v);
        assert(b@ =~= u8_bytes(v));
        self.store_slice(wid, b.as_slice());
        Ok(v)
    }

    /// Overwrites the byte at absolute position `wid`, enforcing the
    /// advisory capacity; cursors do not move.
    pub fn set_u8_le(&mut self, wid: usize, v: u8) -> (r: ByteResult<u8>)
        ensures
            (wid + 1 > old(self)@.cap) == (r is Err),
            r is Err ==> final(self)@ == old(self)@,
            wid + 1 <= old(self)@.cap ==> final(self)@ == old(self)@.with_store(
                wid as int,
                u8_bytes(v),
            ) && r == Ok::<u8, ByteBufError>(v),
    {
        if self.capacity() < 1 || wid > self.capacity() - 1 {
            return Err(ByteBufError::new("wid out of capacity".to_owned()));
        }
        let mut b: Vec<u8> = Vec::new();
        b.push(v);
        assert(b@ =~= u8_bytes(v));
        self.store_slice(wid, b.as_slice());
        Ok(v)
    }

    /// Peeks the `i8` at the read cursor.
    pub fn get_i8(&self) -> (r: i8)
        requires
            self@.rpos + 1 <= self@.data.len(),
        ensures
            r == i8_of(self@.bytes_at(self@.rpos as int, 1)),
    {
        let b = self.byte_at(self.get_reader_index());
        i8_from_bits(b)
    }

    /// Reads the `i8` at the read cursor and advances past it.
    pub fn read_i8(&mut self) -> (r: i8)
        requires
            old(self)@.rpos + 1 <= old(self)@.data.len(),
        ensures
            final(self)@ == old(self)@.after_read(1),
            r == i8_of(old(self)@.bytes_at(old(self)@.rpos as int, 1)),
    {
        let r = self.get_i8();
        self.advance_read(1);
        r
    }

    /// Appends an `i8` as its two's-complement byte.
    pub fn write_i8_be(&mut self, v: i8) -> (r: ByteResult<usize>)
        requires
            old(self)@.wpos + 1 <= usize::MAX,
        ensures
            final(self)@ == old(self)@.after_append(i8_bytes(v)),
            r == Ok::<usize, ByteBufError>(1usize),
    {
        let u = i8_to_bits(v);
        self.write_u8_be(u)
    }

    /// Appends an `i8` as its two's-complement byte.
    pub fn write_i8_le(&mut self, v: i8) -> (r: ByteResult<usize>)
        requires
            old(self)@.wpos + 1 <= usize::MAX,
        ensures
            final(self)@ == old(self)@.after_append(i8_bytes(v)),
            r == Ok::<usize, ByteBufError>(1usize),
    {
        let u = i8_to_bits(v);
        self.write_u8_le(u)
    }

    /// Overwrites the two's-complement byte of an `i8` at absolute position
    /// `wid`, enforcing the advisory capacity; cursors do not move.
    pub fn set_i8_be(&mut self, wid: usize, v: i8) -> (r: ByteResult<i8>)
        ensures
            (wid + 1 > old(self)@.cap) == (r is Err),
            r is Err ==> final(self)@ == old(self)@,
            wid + 1 <= old(self)@.cap ==> final(self)@ == old(self)@.with_store(
                wid as int,
                i8_bytes(v),
            ) && r == Ok::<i8, ByteBufError>(v),
    {
        let u = i8_to_bits(v);
        match self.set_u8_be(wid, u) {
            Ok(_) => Ok(v),
            Err(e) => Err(e),
        }
    }

    /// Overwrites the two's-complement byte of an `i8` at absolute position
    /// `wid`, enforcing the advisory capacity; cursors do not move.
    pub fn set_i8_le(&mut self, wid: usize, v: i8) -> (r: ByteResult<i8>)
        ensures
            (wid + 1 > old(self)@.cap) == (r is Err),
            r is Err ==> final(self)@ == old(self)@,
            wid + 1 <= old(self)@.cap ==> final(self)@ == old(self)@.with_store(
                wid as int,
                i8_bytes(v),
            ) && r == Ok::<i8, ByteBufError>(v),
    {
        let u = i8_to_bits(v);
        match self.set_u8_le(wid, u) {
            Ok(_) => Ok(v),
            Err(e) => Err(e),
        }
    }

    // --- u16 / i16 ---

    /// Peeks the big-endian `u16` at the read cursor.
    pub fn get_u16_be(&self) -> (r: u16)
        requires
            self@.rpos + 2 <= self@.data.len(),
        ensures
            r == u16_of_be(self@.bytes_at(self@.rpos as int, 2)),
    {
        let v = self.take_vec_rev(self.get_reader_index(), 2);
        u16_from_le_bytes(v.as_slice())
    }

    /// Peeks the little-endian `u16` at the read cursor.
    pub fn get_u16_le(&self) -> (r: u16)
        requires
            self@.rpos + 2 <= self@.data.len(),
        ensures
            r == u16_of_le(self@.bytes_at(self@.rpos as int, 2)),
    {
        let v = self.take_vec(self.get_reader_index(), 2);
        u16_from_le_bytes(v.as_slice())
    }

    /// Reads the big-endian `u16` at the read cursor and advances past it.
    pub fn read_u16_be(&mut self) -> (r: u16)
        requires
            old(self)@.rpos + 2 <= old(self)@.data.len(),
        ensures
            final(self)@ == old(self)@.after_read(2),
            r == u16_of_be(old(self)@.bytes_at(old(self)@.rpos as int, 2)),
    {
        let r = self.get_u16_be();
        self.advance_read(2);
        r
    }

    /// Reads the little-endian `u16` at the read cursor and advances past
    /// it.
    pub fn read_u16_le(&mut self) -> (r: u16)
        requires
            old(self)@.rpos + 2 <= old(self)@.data.len(),
        ensures
            final(self)@ == old(self)@.after_read(2),
            r == u16_of_le(old(self)@.bytes_at(old(self)@.rpos as int, 2)),
    {
        let r = self.get_u16_le();
        self.advance_read(2);
        r
    }

    /// Appends a `u16` in big-endian order.
    pub fn write_u16_be(&mut self, v: u16) -> (r: ByteResult<usize>)
        requires
            old(self)@.wpos + 2 <= usize::MAX,
        ensures
            final(self)@ == old(self)@.after_append(u16_be(v)),
            r == Ok::<usize, ByteBufError>(2usize),
    {
        let b = u16_to_le_bytes(v);
        self.append_slice_rev(b.as_slice());
        Ok(2)
    }

    /// Appends a `u16` in little-endian order.
    pub fn write_u16_le(&mut self, v: u16) -> (r: ByteResult<usize>)
        requires
            old(self)@.wpos + 2 <= usize::MAX,
        ensures
            final(self)@ == old(self)@.after_append(u16_le(v)),
            r == Ok::<usize, ByteBufError>(2usize),
    {
        let b = u16_to_le_bytes(v);
        self.append_slice(b.as_slice());
        Ok(2)
    }

    /// Overwrites a big-endian `u16` at absolute position `wid`, enforcing
    /// the advisory capacity; cursors do not move.
    pub fn set_u16_be(&mut self, wid: usize, v: u16) -> (r: ByteResult<u16>)
        ensures
            (wid + 2 > old(self)@.cap) == (r is Err),
            r is Err ==> final(self)@ == old(self)@,
            wid + 2 <= old(self)@.cap ==> final(self)@ == old(self)@.with_store(
                wid as int,
                u16_be(v),
            ) && r == Ok::<u16, ByteBufError>(v),
    {
        if self.capacity() < 2 || wid > self.capacity() - 2 {
            return Err(ByteBufError::new("wid out of capacity".to_owned()));
        }
        let b = u16_to_le_bytes(v);
        self.store_slice_rev(wid, b.as_slice());
        Ok(v)
    }

    /// Overwrites a little-endian `u16` at absolute position `wid`,
    /// enforcing the advisory capacity; cursors do not move.
    pub fn set_u16_le(&mut self, wid: usize, v: u16) -> (r: ByteResult<u16>)
        ensures
            (wid + 2 > old(self)@.cap) == (r is Err),
            r is Err ==> final(self)@ == old(self)@,
            wid + 2 <= old(self)@.cap ==> final(self)@ == old(self)@.with_store(
                wid as int,
                u16_le(v),
            ) && r == Ok::<u16, ByteBufError>(v),
    {
        if self.capacity() < 2 || wid > self.capacity() - 2 {
            return Err(ByteBufError::new("wid out of capacity".to_owned()));
        }
        let b = u16_to_le_bytes(v);
        self.store_slice(wid, b.as_slice());
        Ok(v)
    }

    /// Peeks the big-endian `i16` at the read cursor.
    pub fn get_i16_be(&self) -> (r: i16)
        requires
            self@.rpos + 2 <= self@.data.len(),
        ensures
            r == i16_of_be(self@.bytes_at(self@.rpos as int, 2)),
    {
        let u = self.get_u16_be();
        i16_from_bits(u)
    }

    /// Peeks the little-endian `i16` at the read cursor.
    pub fn get_i16_le(&self) -> (r: i16)
        requires
            self@.rpos + 2 <= self@.data.len(),
        ensures
            r == i16_of_le(self@.bytes_at(self@.rpos as int, 2)),
    {
        let u = self.get_u16_le();
        i16_from_bits(u)
    }

    /// Reads the big-endian `i16` at the read cursor and advances past it.
    pub fn read_i16_be(&mut self) -> (r: i16)
        requires
            old(self)@.rpos + 2 <= old(self)@.data.len(),
        ensures
            final(self)@ == old(self)@.after_read(2),
            r == i16_of_be(old(self)@.bytes_at(old(self)@.rpos as int, 2)),
    {
        let r = self.get_i16_be();
        self.advance_read(2);
        r
    }

    /// Reads the little-endian `i16` at the read cursor and advances past
    /// it.
    pub fn read_i16_le(&mut self) -> (r: i16)
        requires
            old(self)@.rpos + 2 <= old(self)@.data.len(),
        ensures
            final(self)@ == old(self)@.after_read(2),
            r == i16_of_le(old(self)@.bytes_at(old(self)@.rpos as int, 2)),
    {
        let r = self.get_i16_le();
        self.advance_read(2);
        r
    }

    /// Appends an `i16` in big-endian order.
    pub fn write_i16_be(&mut self, v: i16) -> (r: ByteResult<usize>)
        requires
            old(self)@.wpos + 2 <= usize::MAX,
        ensures
            final(self)@ == old(self)@.after_append(i16_be(v)),
            r == Ok::<usize, ByteBufError>(2usize),
    {
        let u = i16_to_bits(v);
        self.write_u16_be(u)
    }

    /// Appends an `i16` in little-endian order.
    pub fn write_i16_le(&mut self, v: i16) -> (r: ByteResult<usize>)
        requires
            old(self)@.wpos + 2 <= usize::MAX,
        ensures
            final(self)@ == old(self)@.after_append(i16_le(v)),
            r == Ok::<usize, ByteBufError>(2usize),
    {
        let u = i16_to_bits(v);
        self.write_u16_le(u)
    }

    /// Overwrites a big-endian `i16` at absolute position `wid`, enforcing
    /// the advisory capacity; cursors do not move.
    pub fn set_i16_be(&mut self, wid: usize, v: i16) -> (r: ByteResult<i16>)
        ensures
            (wid + 2 > old(self)@.cap) == (r is Err),
            r is Err ==> final(self)@ == old(self)@,
            wid + 2 <= old(self)@.cap ==> final(self)@ == old(self)@.with_store(
                wid as int,
                i16_be(v),
            ) && r == Ok::<i16, ByteBufError>(v),
    {
        let u = i16_to_bits(v);
        match self.set_u16_be(wid, u) {
            Ok(_) => Ok(v),
            Err(e) => Err(e),
        }
    }

    /// Overwrites a little-endian `i16` at absolute position `wid`,
    /// enforcing the advisory capacity; cursors do not move.
    pub fn set_i16_le(&mut self, wid: usize, v: i16) -> (r: ByteResult<i16>)
        ensures
            (wid + 2 > old(self)@.cap) == (r is Err),
            r is Err ==> final(self)@ == old(self)@,
            wid + 2 <= old(self)@.cap ==> final(self)@ == old(self)@.with_store(
                wid as int,
                i16_le(v),
            ) && r == Ok::<i16, ByteBufError>(v),
    {
        let u = i16_to_bits(v);
        match self.set_u16_le(wid, u) {
            Ok(_) => Ok(v),
            Err(e) => Err(e),
        }
    }

    // --- u32 / i32 ---

    /// Peeks the big-endian `u32` at the read cursor.
    pub fn get_u32_be(&self) -> (r: u32)
        requires
            self@.rpos + 4 <= self@.data.len(),
        ensures
            r == u32_of_be(self@.bytes_at(self@.rpos as int, 4)),
    {
        let v = self.take_vec_rev(self.get_reader_index(), 4);
        u32_from_le_bytes(v.as_slice())
    }

    /// Peeks the little-endian `u32` at the read cursor.
    pub fn get_u32_le(&self) -> (r: u32)
        requires
            self@.rpos + 4 <= self@.data.len(),
        ensures
            r == u32_of_le(self@.bytes_at(self@.rpos as int, 4)),
    {
        let v = self.take_vec(self.get_reader_index(), 4);
        u32_from_le_bytes(v.as_slice())
    }

    /// Reads the big-endian `u32` at the read cursor and advances past it.
    pub fn read_u32_be(&mut self) -> (r: u32)
        requires
            old(self)@.rpos + 4 <= old(self)@.data.len(),
        ensures
            final(self)@ == old(self)@.after_read(4),
            r == u32_of_be(old(self)@.bytes_at(old(self)@.rpos as int, 4)),
    {
        let r = self.get_u32_be();
        self.advance_read(4);
        r
    }

    /// Reads the little-endian `u32` at the read cursor and advances past
    /// it.
    pub fn read_u32_le(&mut self) -> (r: u32)
        requires
            old(self)@.rpos + 4 <= old(self)@.data.len(),
        ensures
            final(self)@ == old(self)@.after_read(4),
            r == u32_of_le(old(self)@.bytes_at(old(self)@.rpos as int, 4)),
    {
        let r = self.get_u32_le();
        self.advance_read(4);
        r
    }

    /// Appends a `u32` in big-endian order.
    pub fn write_u32_be(&mut self, v: u32) -> (r: ByteResult<usize>)
        requires
            old(self)@.wpos + 4 <= usize::MAX,
        ensures
            final(self)@ == old(self)@.after_append(u32_be(v)),
            r == Ok::<usize, ByteBufError>(4usize),
    {
        let b = u32_to_le_bytes(v);
        self.append_slice_rev(b.as_slice());
        Ok(4)
    }

    /// Appends a `u32` in little-endian order.
    pub fn write_u32_le(&mut self, v: u32) -> (r: ByteResult<usize>)
        requires
            old(self)@.wpos + 4 <= usize::MAX,
        ensures
            final(self)@ == old(self)@.after_append(u32_le(v)),
            r == Ok::<usize, ByteBufError>(4usize),
    {
        let b = u32_to_le_bytes(v);
        self.append_slice(b.as_slice());
        Ok(4)
    }

    /// Overwrites a big-endian `u32` at absolute position `wid`, enforcing
    /// the advisory capacity; cursors do not move.
    pub fn set_u32_be(&mut self, wid: usize, v: u32) -> (r: ByteResult<u32>)
        ensures
            (wid + 4 > old(self)@.cap) == (r is Err),
            r is Err ==> final(self)@ == old(self)@,
            wid + 4 <= old(self)@.cap ==> final(self)@ == old(self)@.with_store(
                wid as int,
                u32_be(v),
            ) && r == Ok::<u32, ByteBufError>(v),
    {
        if self.capacity() < 4 || wid > self.capacity() - 4 {
            return Err(ByteBufError::new("wid out of capacity".to_owned()));
        }
        let b = u32_to_le_bytes(v);
        self.store_slice_rev(wid, b.as_slice());
        Ok(v)
    }

    /// Overwrites a little-endian `u32` at absolute position `wid`,
    /// enforcing the advisory capacity; cursors do not move.
    pub fn set_u32_le(&mut self, wid: usize, v: u32) -> (r: ByteResult<u32>)
        ensures
            (wid + 4 > old(self)@.cap) == (r is Err),
            r is Err ==> final(self)@ == old(self)@,
            wid + 4 <= old(self)@.cap ==> final(self)@ == old(self)@.with_store(
                wid as int,
                u32_le(v),
            ) && r == Ok::<u32, ByteBufError>(v),
    {
        if self.capacity() < 4 || wid > self.capacity() - 4 {
            return Err(ByteBufError::new("wid out of capacity".to_owned()));
        }
        let b = u32_to_le_bytes(v);
        self.store_slice(wid, b.as_slice());
        Ok(v)
    }

    /// Peeks the big-endian `i32` at the read cursor.
    pub fn get_i32_be(&self) -> (r: i32)
        requires
            self@.rpos + 4 <= self@.data.len(),
        ensures
            r == i32_of_be(self@.bytes_at(self@.rpos as int, 4)),
    {
        let u = self.get_u32_be();
        i32_from_bits(u)
    }

    /// Peeks the little-endian `i32` at the read cursor.
    pub fn get_i32_le(&self) -> (r: i32)
        requires
            self@.rpos + 4 <= self@.data.len(),
        ensures
            r == i32_of_le(self@.bytes_at(self@.rpos as int, 4)),
    {
        let u = self.get_u32_le();
        i32_from_bits(u)
    }

    /// Reads the big-endian `i32` at the read cursor and advances past it.
    pub fn read_i32_be(&mut self) -> (r: i32)
        requires
            old(self)@.rpos + 4 <= old(self)@.data.len(),
        ensures
            final(self)@ == old(self)@.after_read(4),
            r == i32_of_be(old(self)@.bytes_at(old(self)@.rpos as int, 4)),
    {
        let r = self.get_i32_be();
        self.advance_read(4);
        r
    }

    /// Reads the little-endian `i32` at the read cursor and advances past
    /// it.
    pub fn read_i32_le(&mut self) -> (r: i32)
        requires
            old(self)@.rpos + 4 <= old(self)@.data.len(),
        ensures
            final(self)@ == old(self)@.after_read(4),
            r == i32_of_le(old(self)@.bytes_at(old(self)@.rpos as int, 4)),
    {
        let r = self.get_i32_le();
        self.advance_read(4);
        r
    }

    /// Appends an `i32` in big-endian order.
    pub fn write_i32_be(&mut self, v: i32) -> (r: ByteResult<usize>)
        requires
            old(self)@.wpos + 4 <= usize::MAX,
        ensures
            final(self)@ == old(self)@.after_append(i32_be(v)),
            r == Ok::<usize, ByteBufError>(4usize),
    {
        let u = i32_to_bits(v);
        self.write_u32_be(u)
    }

    /// Appends an `i32` in little-endian order.
    pub fn write_i32_le(&mut self, v: i32) -> (r: ByteResult<usize>)
        requires
            old(self)@.wpos + 4 <= usize::MAX,
        ensures
            final(self)@ == old(self)@.after_append(i32_le(v)),
            r == Ok::<usize, ByteBufError>(4usize),
    {
        let u = i32_to_bits(v);
        self.write_u32_le(u)
    }

    /// Overwrites a big-endian `i32` at absolute position `wid`, enforcing
    /// the advisory capacity; cursors do not move.
    pub fn set_i32_be(&mut self, wid: usize, v: i32) -> (r: ByteResult<i32>)
        ensures
            (wid + 4 > old(self)@.cap) == (r is Err),
            r is Err ==> final(self)@ == old(self)@,
            wid + 4 <= old(self)@.cap ==> final(self)@ == old(self)@.with_store(
                wid as int,
                i32_be(v),
            ) && r == Ok::<i32, ByteBufError>(v),
    {
        let u = i32_to_bits(v);
        match self.set_u32_be(wid, u) {
            Ok(_) => Ok(v),
            Err(e) => Err(e),
        }
    }

    /// Overwrites a little-endian `i32` at absolute position `wid`,
    /// enforcing the advisory capacity; cursors do not move.
    pub fn set_i32_le(&mut self, wid: usize, v: i32) -> (r: ByteResult<i32>)
        ensures
            (wid + 4 > old(self)@.cap) == (r is Err),
            r is Err ==> final(self)@ == old(self)@,
            wid + 4 <= old(self)@.cap ==> final(self)@ == old(self)@.with_store(
                wid as int,
                i32_le(v),
            ) && r == Ok::<i32, ByteBufError>(v),
    {
        let u = i32_to_bits(v);
        match self.set_u32_le(wid, u) {
            Ok(_) => Ok(v),
            Err(e) => Err(e),
        }
    }

    // --- u64 / i64 ---

    /// Peeks the big-endian `u64` at the read cursor.
    pub fn get_u64_be(&self) -> (r: u64)
        requires
            self@.rpos + 8 <= self@.data.len(),
        ensures
            r == u64_of_be(self@.bytes_at(self@.rpos as int, 8)),
    {
        let v = self.take_vec_rev(self.get_reader_index(), 8);
        u64_from_le_bytes(v.as_slice())
    }

    /// Peeks the little-endian `u64` at the read cursor.
    pub fn get_u64_le(&self) -> (r: u64)
        requires
            self@.rpos + 8 <= self@.data.len(),
        ensures
            r == u64_of_le(self@.bytes_at(self@.rpos as int, 8)),
    {
        let v = self.take_vec(self.get_reader_index(), 8);
        u64_from_le_bytes(v.as_slice())
    }

    /// Reads the big-endian `u64` at the read cursor and advances past it.
    pub fn read_u64_be(&mut self) -> (r: u64)
        requires
            old(self)@.rpos + 8 <= old(self)@.data.len(),
        ensures
            final(self)@ == old(self)@.after_read(8),
            r == u64_of_be(old(self)@.bytes_at(old(self)@.rpos as int, 8)),
    {
        let r = self.get_u64_be();
        self.advance_read(8);
        r
    }

    /// Reads the little-endian `u64` at the read cursor and advances past
    /// it.
    pub fn read_u64_le(&mut self) -> (r: u64)
        requires
            old(self)@.rpos + 8 <= old(self)@.data.len(),
        ensures
            final(self)@ == old(self)@.after_read(8),
            r == u64_of_le(old(self)@.bytes_at(old(self)@.rpos as int, 8)),
    {
        let r = self.get_u64_le();
        self.advance_read(8);
        r
    }

    /// Appends a `u64` in big-endian order.
    pub fn write_u64_be(&mut self, v: u64) -> (r: ByteResult<usize>)
        requires
            old(self)@.wpos + 8 <= usize::MAX,
        ensures
            final(self)@ == old(self)@.after_append(u64_be(v)),
            r == Ok::<usize, ByteBufError>(8usize),
    {
        let b = u64_to_le_bytes(v);
        self.append_slice_rev(b.as_slice());
        Ok(8)
    }

    /// Appends a `u64` in little-endian order.
    pub fn write_u64_le(&mut self, v: u64) -> (r: ByteResult<usize>)
        requires
            old(self)@.wpos + 8 <= usize::MAX,
        ensures
            final(self)@ == old(self)@.after_append(u64_le(v)),
            r == Ok::<usize, ByteBufError>(8usize),
    {
        let b = u64_to_le_bytes(v);
        self.append_slice(b.as_slice());
        Ok(8)
    }

    /// Overwrites a big-endian `u64` at absolute position `wid`, enforcing
    /// the advisory capacity; cursors do not move.
    pub fn set_u64_be(&mut self, wid: usize, v: u64) -> (r: ByteResult<u64>)
        ensures
            (wid + 8 > old(self)@.cap) == (r is Err),
            r is Err ==> final(self)@ == old(self)@,
            wid + 8 <= old(self)@.cap ==> final(self)@ == old(self)@.with_store(
                wid as int,
                u64_be(v),
            ) && r == Ok::<u64, ByteBufError>(v),
    {
        if self.capacity() < 8 || wid > self.capacity() - 8 {
            return Err(ByteBufError::new("wid out of capacity".to_owned()));
        }
        let b = u64_to_le_bytes(v);
        self.store_slice_rev(wid, b.as_slice());
        Ok(v)
    }

    /// Overwrites a little-endian `u64` at absolute position `wid`,
    /// enforcing the advisory capacity; cursors do not move.
    pub fn set_u64_le(&mut self, wid: usize, v: u64) -> (r: ByteResult<u64>)
        ensures
            (wid + 8 > old(self)@.cap) == (r is Err),
            r is Err ==> final(self)@ == old(self)@,
            wid + 8 <= old(self)@.cap ==> final(self)@ == old(self)@.with_store(
                wid as int,
                u64_le(v),
            ) && r == Ok::<u64, ByteBufError>(v),
    {
        if self.capacity() < 8 || wid > self.capacity() - 8 {
            return Err(ByteBufError::new("wid out of capacity".to_owned()));
        }
        let b = u64_to_le_bytes(v);
        self.store_slice(wid, b.as_slice());
        Ok(v)
    }

    /// Peeks the big-endian `i64` at the read cursor.
    pub fn get_i64_be(&self) -> (r: i64)
        requires
            self@.rpos + 8 <= self@.data.len(),
        ensures
            r == i64_of_be(self@.bytes_at(self@.rpos as int, 8)),
    {
        let u = self.get_u64_be();
        i64_from_bits(u)
    }

    /// Peeks the little-endian `i64` at the read cursor.
    pub fn get_i64_le(&self) -> (r: i64)
        requires
            self@.rpos + 8 <= self@.data.len(),
        ensures
            r == i64_of_le(self@.bytes_at(self@.rpos as int, 8)),
    {
        let u = self.get_u64_le();
        i64_from_bits(u)
    }

    /// Reads the big-endian `i64` at the read cursor and advances past it.
    pub fn read_i64_be(&mut self) -> (r: i64)
        requires
            old(self)@.rpos + 8 <= old(self)@.data.len(),
        ensures
            final(self)@ == old(self)@.after_read(8),
            r == i64_of_be(old(self)@.bytes_at(old(self)@.rpos as int, 8)),
    {
        let r = self.get_i64_be();
        self.advance_read(8);
        r
    }

    /// Reads the little-endian `i64` at the read cursor and advances past
    /// it.
    pub fn read_i64_le(&mut self) -> (r: i64)
        requires
            old(self)@.rpos + 8 <= old(self)@.data.len(),
        ensures
            final(self)@ == old(self)@.after_read(8),
            r == i64_of_le(old(self)@.bytes_at(old(self)@.rpos as int, 8)),
    {
        let r = self.get_i64_le();
        self.advance_read(8);
        r
    }

    /// Appends an `i64` in big-endian order.
    pub fn write_i64_be(&mut self, v: i64) -> (r: ByteResult<usize>)
        requires
            old(self)@.wpos + 8 <= usize::MAX,
        ensures
            final(self)@ == old(self)@.after_append(i64_be(v)),
            r == Ok::<usize, ByteBufError>(8usize),
    {
        let u = i64_to_bits(v);
        self.write_u64_be(u)
    }

    /// Appends an `i64` in little-endian order.
    pub fn write_i64_le(&mut self, v: i64) -> (r: ByteResult<usize>)
        requires
            old(self)@.wpos + 8 <= usize::MAX,
        ensures
            final(self)@ == old(self)@.after_append(i64_le(v)),
            r == Ok::<usize, ByteBufError>(8usize),
    {
        let u = i64_to_bits(v);
        self.write_u64_le(u)
    }

    /// Overwrites a big-endian `i64` at absolute position `wid`, enforcing
    /// the advisory capacity; cursors do not move.
    pub fn set_i64_be(&mut self, wid: usize, v: i64) -> (r: ByteResult<i64>)
        ensures
            (wid + 8 > old(self)@.cap) == (r is Err),
            r is Err ==> final(self)@ == old(self)@,
            wid + 8 <= old(self)@.cap ==> final(self)@ == old(self)@.with_store(
                wid as int,
                i64_be(v),
            ) && r == Ok::<i64, ByteBufError>(v),
    {
        let u = i64_to_bits(v);
        match self.set_u64_be(wid, u) {
            Ok(_) => Ok(v),
            Err(e) => Err(e),
        }
    }

    /// Overwrites a little-endian `i64` at absolute position `wid`,
    /// enforcing the advisory capacity; cursors do not move.
    pub fn set_i64_le(&mut self, wid: usize, v: i64) -> (r: ByteResult<i64>)
        ensures
            (wid + 8 > old(self)@.cap) == (r is Err),
            r is Err ==> final(self)@ == old(self)@,
            wid + 8 <= old(self)@.cap ==> final(self)@ == old(self)@.with_store(
                wid as int,
                i64_le(v),
            ) && r == Ok::<i64, ByteBufError>(v),
    {
        let u = i64_to_bits(v);
        match self.set_u64_le(wid, u) {
            Ok(_) => Ok(v),
            Err(e) => Err(e),
        }
    }

    // --- u128 / i128 ---

    /// Peeks the big-endian `u128` at the read cursor.
    pub fn get_u128_be(&self) -> (r: u128)
        requires
            self@.rpos + 16 <= self@.data.len(),
        ensures
            r == u128_of_be(self@.bytes_at(self@.rpos as int, 16)),
    {
        let v = self.take_vec_rev(self.get_reader_index(), 16);
        u128_from_le_bytes(v.as_slice())
    }

    /// Peeks the little-endian `u128` at the read cursor.
    pub fn get_u128_le(&self) -> (r: u128)
        requires
            self@.rpos + 16 <= self@.data.len(),
        ensures
            r == u128_of_le(self@.bytes_at(self@.rpos as int, 16)),
    {
        let v = self.take_vec(self.get_reader_index(), 16);
        u128_from_le_bytes(v.as_slice())
    }

    /// Reads the big-endian `u128` at the read cursor and advances past it.
    pub fn read_u128_be(&mut self) -> (r: u128)
        requires
            old(self)@.rpos + 16 <= old(self)@.data.len(),
        ensures
            final(self)@ == old(self)@.after_read(16),
            r == u128_of_be(old(self)@.bytes_at(old(self)@.rpos as int, 16)),
    {
        let r = self.get_u128_be();
        self.advance_read(16);
        r
    }

    /// Reads the little-endian `u128` at the read cursor and advances past
    /// it.
    pub fn read_u128_le(&mut self) -> (r: u128)
        requires
            old(self)@.rpos + 16 <= old(self)@.data.len(),
        ensures
            final(self)@ == old(self)@.after_read(16),
            r == u128_of_le(old(self)@.bytes_at(old(self)@.rpos as int, 16)),
    {
        let r = self.get_u128_le();
        self.advance_read(16);
        r
    }

    /// Appends a `u128` in big-endian order.
    pub fn write_u128_be(&mut self, v: u128) -> (r: ByteResult<usize>)
        requires
            old(self)@.wpos + 16 <= usize::MAX,
        ensures
            final(self)@ == old(self)@.after_append(u128_be(v)),
            r == Ok::<usize, ByteBufError>(16usize),
    {
        let b = u128_to_le_bytes(v);
        self.append_slice_rev(b.as_slice());
        Ok(16)
    }

    /// Appends a `u128` in little-endian order.
    pub fn write_u128_le(&mut self, v: u128) -> (r: ByteResult<usize>)
        requires
            old(self)@.wpos + 16 <= usize::MAX,
        ensures
            final(self)@ == old(self)@.after_append(u128_le(v)),
            r == Ok::<usize, ByteBufError>(16usize),
    {
        let b = u128_to_le_bytes(v);
        self.append_slice(b.as_slice());
        Ok(16)
    }

    /// Overwrites a big-endian `u128` at absolute position `wid`, enforcing
    /// the advisory capacity; cursors do not move.
    pub fn set_u128_be(&mut self, wid: usize, v: u128) -> (r: ByteResult<u128>)
        ensures
            (wid + 16 > old(self)@.cap) == (r is Err),
            r is Err ==> final(self)@ == old(self)@,
            wid + 16 <= old(self)@.cap ==> final(self)@ == old(self)@.with_store(
                wid as int,
                u128_be(v),
            ) && r == Ok::<u128, ByteBufError>(v),
    {
        if self.capacity() < 16 || wid > self.capacity() - 16 {
            return Err(ByteBufError::new("wid out of capacity".to_owned()));
        }
        let b = u128_to_le_bytes(v);
        self.store_slice_rev(wid, b.as_slice());
        Ok(v)
    }

    /// Overwrites a little-endian `u128` at absolute position `wid`,
    /// enforcing the advisory capacity; cursors do not move.
    pub fn set_u128_le(&mut self, wid: usize, v: u128) -> (r: ByteResult<u128>)
        ensures
            (wid + 16 > old(self)@.cap) == (r is Err),
            r is Err ==> final(self)@ == old(self)@,
            wid + 16 <= old(self)@.cap ==> final(self)@ == old(self)@.with_store(
                wid as int,
                u128_le(v),
            ) && r == Ok::<u128, ByteBufError>(v),
    {
        if self.capacity() < 16 || wid > self.capacity() - 16 {
            return Err(ByteBufError::new("wid out of capacity".to_owned()));
        }
        let b = u128_to_le_bytes(v);
        self.store_slice(wid, b.as_slice());
        Ok(v)
    }

    /// Peeks the big-endian `i128` at the read cursor.
    pub fn get_i128_be(&self) -> (r: i128)
        requires
            self@.rpos + 16 <= self@.data.len(),
        ensures
            r == i128_of_be(self@.bytes_at(self@.rpos as int, 16)),
    {
        let u = self.get_u128_be();
        i128_from_bits(u)
    }

    /// Peeks the little-endian `i128` at the read cursor.
    pub fn get_i128_le(&self) -> (r: i128)
        requires
            self@.rpos + 16 <= self@.data.len(),
        ensures
            r == i128_of_le(self@.bytes_at(self@.rpos as int, 16)),
    {
        let u = self.get_u128_le();
        i128_from_bits(u)
    }

    /// Reads the big-endian `i128` at the read cursor and advances past it.
    pub fn read_i128_be(&mut self) -> (r: i128)
        requires
            old(self)@.rpos + 16 <= old(self)@.data.len(),
        ensures
            final(self)@ == old(self)@.after_read(16),
            r == i128_of_be(old(self)@.bytes_at(old(self)@.rpos as int, 16)),
    {
        let r = self.get_i128_be();
        self.advance_read(16);
        r
    }

    /// Reads the little-endian `i128` at the read cursor and advances past
    /// it.
    pub fn read_i128_le(&mut self) -> (r: i128)
        requires
            old(self)@.rpos + 16 <= old(self)@.data.len(),
        ensures
            final(self)@ == old(self)@.after_read(16),
            r == i128_of_le(old(self)@.bytes_at(old(self)@.rpos as int, 16)),
    {
        let r = self.get_i128_le();
        self.advance_read(16);
        r
    }

    /// Appends an `i128` in big-endian order.
    pub fn write_i128_be(&mut self, v: i128) -> (r: ByteResult<usize>)
        requires
            old(self)@.wpos + 16 <= usize::MAX,
        ensures
            final(self)@ == old(self)@.after_append(i128_be(v)),
            r == Ok::<usize, ByteBufError>(16usize),
    {
        let u = i128_to_bits(v);
        self.write_u128_be(u)
    }

    /// Appends an `i128` in little-endian order.
    pub fn write_i128_le(&mut self, v: i128) -> (r: ByteResult<usize>)
        requires
            old(self)@.wpos + 16 <= usize::MAX,
        ensures
            final(self)@ == old(self)@.after_append(i128_le(v)),
            r == Ok::<usize, ByteBufError>(16usize),
    {
        let u = i128_to_bits(v);
        self.write_u128_le(u)
    }

    /// Overwrites a big-endian `i128` at absolute position `wid`, enforcing
    /// the advisory capacity; cursors do not move.
    pub fn set_i128_be(&mut self, wid: usize, v: i128) -> (r: ByteResult<i128>)
        ensures
            (wid + 16 > old(self)@.cap) == (r is Err),
            r is Err ==> final(self)@ == old(self)@,
            wid + 16 <= old(self)@.cap ==> final(self)@ == old(self)@.with_store(
                wid as int,
                i128_be(v),
            ) && r == Ok::<i128, ByteBufError>(v),
    {
        let u = i128_to_bits(v);
        match self.set_u128_be(wid, u) {
            Ok(_) => Ok(v),
            Err(e) => Err(e),
        }
    }

    /// Overwrites a little-endian `i128` at absolute position `wid`,
    /// enforcing the advisory capacity; cursors do not move.
    pub fn set_i128_le(&mut self, wid: usize, v: i128) -> (r: ByteResult<i128>)
        ensures
            (wid + 16 > old(self)@.cap) == (r is Err),
            r is Err ==> final(self)@ == old(self)@,
            wid + 16 <= old(self)@.cap ==> final(self)@ == old(self)@.with_store(
                wid as int,
                i128_le(v),
            ) && r == Ok::<i128, ByteBufError>(v),
    {
        let u = i128_to_bits(v);
        match self.set_u128_le(wid, u) {
            Ok(_) => Ok(v),
            Err(e) => Err(e),
        }
    }
}

} // verus!
