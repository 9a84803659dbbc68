//! Raw byte writes and the length-prefixed UTF-8 string layer.
//!
//! A framed write stores the UTF-8 byte length of the string as a
//! fixed-width integer, then the bytes themselves; it fails when the length
//! exceeds the prefix width's maximum.  A framed read decodes the prefix,
//! then the announced number of bytes.  Reading decodes lossily: invalid
//! byte sequences become replacement characters instead of an error, and
//! valid UTF-8 decodes to exactly its characters.

use crate::buffer::{ByteBuf, ByteResult};
use crate::codec::{u16_be, u16_le, u16_of_be, u16_of_le, u32_be, u32_le, u32_of_be, u32_of_le, u8_bytes, u8_of};
use crate::error::ByteBufError;
use vstd::prelude::*;
use vstd::utf8::{decode_utf8, encode_utf8, valid_utf8};

verus! {

broadcast use vstd::group_vstd_default;

/// What `String::from_utf8_lossy` returns on a non-empty byte sequence; it
/// depends on the bytes alone.
pub uninterp spec fn utf8_chars_lossy(b: Seq<u8>) -> Seq<char>;

/// The characters a lossy UTF-8 decoding yields: nothing from no bytes,
/// otherwise the named result of `String::from_utf8_lossy`.
pub open spec fn lossy_chars(b: Seq<u8>) -> Seq<char> {
    if b.len() == 0 {
        Seq::empty()
    } else {
        utf8_chars_lossy(b)
    }
}

/// Relies on `String::from_utf8_lossy`: the result is a function of the
/// bytes alone, valid UTF-8 decodes to exactly its characters, and invalid
/// sequences are replaced rather than failing.
#[verifier::external_body]
fn lossy_string(bytes: &[u8]) -> (r: String)
    ensures
        bytes@.len() > 0 ==> r@ == utf8_chars_lossy(bytes@),
        r@ == lossy_chars(bytes@),
        valid_utf8(bytes@) ==> r@ == decode_utf8(bytes@),
{
    String::from_utf8_lossy(bytes).into_owned()
}

impl ByteBuf {
    /// Appends the bytes of a slice, growing the store; returns how many
    /// bytes were appended.
    pub fn write_bytes(&mut self, bytes: &[u8]) -> (r: ByteResult<usize>)
        requires
            old(self)@.wpos + bytes@.len() <= usize::MAX,
        ensures
            final(self)@ == old(self)@.after_append(bytes@),
            r matches Ok(n) && n == bytes@.len(),
    {
        let n = bytes.len();
        self.append_slice(bytes);
        Ok(n)
    }

    /// Appends the UTF-8 bytes of a string slice; returns how many bytes
    /// were appended.
    pub fn write_str(&mut self, v: &str) -> (r: ByteResult<usize>)
        requires
            old(self)@.wpos + encode_utf8(v@).len() <= usize::MAX,
        ensures
            final(self)@ == old(self)@.after_append(encode_utf8(v@)),
            r matches Ok(n) && n == encode_utf8(v@).len(),
    {
        let bytes = v.as_bytes();
        let n = bytes.len();
        self.append_slice(bytes);
        Ok(n)
    }

    /// Appends the whole physical store of another buffer; returns how many
    /// bytes were appended.
    pub fn write_bytebuf(&mut self, bb: ByteBuf) -> (r: ByteResult<usize>)
        requires
            old(self)@.wpos + bb@.data.len() <= usize::MAX,
        ensures
            final(self)@ == old(self)@.after_append(bb@.data),
            r matches Ok(n) && n == bb@.data.len(),
    {
        let s = bb.as_slice();
        let n = s.len();
        self.append_slice(s);
        Ok(n)
    }

    /// Appends the UTF-8 bytes of an owned string.
    fn write_string(&mut self, v: String) -> (r: ByteResult<usize>)
        requires
            old(self)@.wpos + encode_utf8(v@).len() <= usize::MAX,
        ensures
            final(self)@ == old(self)@.after_append(encode_utf8(v@)),
            r matches Ok(n) && n == encode_utf8(v@).len(),
    {
        self.write_str(v.as_str())
    }

    /// Appends a string framed with a one-byte length prefix.  Fails,
    /// writing nothing, when the UTF-8 byte length exceeds `u8::MAX`; on
    /// success returns the byte length of the string itself.
    pub fn write_string_with_u8_be_len(&mut self, v: String) -> (r: ByteResult<usize>)
        requires
            encode_utf8(v@).len() <= u8::MAX ==> old(self)@.wpos + 1 + encode_utf8(v@).len()
                <= usize::MAX,
        ensures
            (encode_utf8(v@).len() > u8::MAX) == (r is Err),
            r is Err ==> final(self)@ == old(self)@,
            encode_utf8(v@).len() <= u8::MAX ==> final(self)@ == old(self)@.after_append(
                u8_bytes(encode_utf8(v@).len() as u8) + encode_utf8(v@),
            ) && (r matches Ok(n) && n == encode_utf8(v@).len()),
    {
        let blen = v.as_str().as_bytes().len();
        if blen > u8::MAX as usize {
            return Err(ByteBufError::new("StringLength out of u8 max_value".to_owned()));
        }
        let _ = self.write_u8_be(blen as u8);
        assert(blen == encode_utf8(v@).len());
        assert(self@.wpos + encode_utf8(v@).len() <= usize::MAX);
        let r = self.write_string(v);
        assert(self@ =~= old(self)@.after_append(
            u8_bytes(encode_utf8(v@).len() as u8) + encode_utf8(v@),
        ));
        r
    }

    /// Appends a string framed with a two-byte big-endian length prefix.
    /// Fails, writing nothing, when the UTF-8 byte length exceeds
    /// `u16::MAX`; on success returns the byte length of the string itself.
    pub fn write_string_with_u16_be_len(&mut self, v: String) -> (r: ByteResult<usize>)
        requires
            encode_utf8(v@).len() <= u16::MAX ==> old(self)@.wpos + 2 + encode_utf8(v@).len()
                <= usize::MAX,
        ensures
            (encode_utf8(v@).len() > u16::MAX) == (r is Err),
            r is Err ==> final(self)@ == old(self)@,
            encode_utf8(v@).len() <= u16::MAX ==> final(self)@ == old(self)@.after_append(
                u16_be(encode_utf8(v@).len() as u16) + encode_utf8(v@),
            ) && (r matches Ok(n) && n == encode_utf8(v@).len()),
    {
        let blen = v.as_str().as_bytes().len();
        if blen > u16::MAX as usize {
            return Err(ByteBufError::new("StringLength out of u16 max_value".to_owned()));
        }
        proof {
            crate::codec::lemma_u16_round_trip(blen as u16);
        }
        let _ = self.write_u16_be(blen as u16);
        assert(blen == encode_utf8(v@).len());
        assert(self@.wpos + encode_utf8(v@).len() <= usize::MAX);
        let r = self.write_string(v);
        assert(self@ =~= old(self)@.after_append(
            u16_be(encode_utf8(v@).len() as u16) + encode_utf8(v@),
        ));
        r
    }

    /// Appends a string framed with a two-byte little-endian length prefix.
    /// Fails, writing nothing, when the UTF-8 byte length exceeds
    /// `u16::MAX`; on success returns the byte length of the string itself.
    pub fn write_string_with_u16_le_len(&mut self, v: String) -> (r: ByteResult<usize>)
        requires
            encode_utf8(v@).len() <= u16::MAX ==> old(self)@.wpos + 2 + encode_utf8(v@).len()
                <= usize::MAX,
        ensures
            (encode_utf8(v@).len() > u16::MAX) == (r is Err),
            r is Err ==> final(self)@ == old(self)@,
            encode_utf8(v@).len() <= u16::MAX ==> final(self)@ == old(self)@.after_append(
                u16_le(encode_utf8(v@).len() as u16) + encode_utf8(v@),
            ) && (r matches Ok(n) && n == encode_utf8(v@).len()),
    {
        let blen = v.as_str().as_bytes().len();
        if blen > u16::MAX as usize {
            return Err(ByteBufError::new("StringLength out of u16 max_value".to_owned()));
        }
        proof {
            crate::codec::lemma_u16_round_trip(blen as u16);
        }
        let _ = self.write_u16_le(blen as u16);
        assert(blen == encode_utf8(v@).len());
        assert(self@.wpos + encode_utf8(v@).len() <= usize::MAX);
        let r = self.write_string(v);
        assert(self@ =~= old(self)@.after_append(
            u16_le(encode_utf8(v@).len() as u16) + encode_utf8(v@),
        ));
        r
    }

    /// Appends a string framed with a four-byte big-endian length prefix.
    /// Fails, writing nothing, when the UTF-8 byte length exceeds
    /// `u32::MAX`; on success returns the byte length of the string itself.
    pub fn write_string_with_u32_be_len(&mut self, v: String) -> (r: ByteResult<usize>)
        requires
            encode_utf8(v@).len() <= u32::MAX ==> old(self)@.wpos + 4 + encode_utf8(v@).len()
                <= usize::MAX,
        ensures
            (encode_utf8(v@).len() > u32::MAX) == (r is Err),
            r is Err ==> final(self)@ == old(self)@,
            encode_utf8(v@).len() <= u32::MAX ==> final(self)@ == old(self)@.after_append(
                u32_be(encode_utf8(v@).len() as u32) + encode_utf8(v@),
            ) && (r matches Ok(n) && n == encode_utf8(v@).len()),
    {
        let blen = v.as_str().as_bytes().len();
        if blen > u32::MAX as usize {
            return Err(ByteBufError::new("StringLength out of u32 max_value".to_owned()));
        }
        proof {
            crate::codec::lemma_u32_round_trip(blen as u32);
        }
        let _ = self.write_u32_be(blen as u32);
        assert(blen == encode_utf8(v@).len());
        assert(self@.wpos + encode_utf8(v@).len() <= usize::MAX);
        let r = self.write_string(v);
        assert(self@ =~= old(self)@.after_append(
            u32_be(encode_utf8(v@).len() as u32) + encode_utf8(v@),
        ));
        r
    }

    /// Appends a string framed with a four-byte little-endian length
    /// prefix.  Fails, writing nothing, when the UTF-8 byte length exceeds
    /// `u32::MAX`; on success returns the byte length of the string itself.
    pub fn write_string_with_u32_le_len(&mut self, v: String) -> (r: ByteResult<usize>)
        requires
            encode_utf8(v@).len() <= u32::MAX ==> old(self)@.wpos + 4 + encode_utf8(v@).len()
                <= usize::MAX,
        ensures
            (encode_utf8(v@).len() > u32::MAX) == (r is Err),
            r is Err ==> final(self)@ == old(self)@,
            encode_utf8(v@).len() <= u32::MAX ==> final(self)@ == old(self)@.after_append(
                u32_le(encode_utf8(v@).len() as u32) + encode_utf8(v@),
            ) && (r matches Ok(n) && n == encode_utf8(v@).len()),
    {
        let blen = v.as_str().as_bytes().len();
        if blen > u32::MAX as usize {
            return Err(ByteBufError::new("StringLength out of u32 max_value".to_owned()));
        }
        proof {
            crate::codec::lemma_u32_round_trip(blen as u32);
        }
        let _ = self.write_u32_le(blen as u32);
        assert(blen == encode_utf8(v@).len());
        assert(self@.wpos + encode_utf8(v@).len() <= usize::MAX);
        let r = self.write_string(v);
        assert(self@ =~= old(self)@.after_append(
            u32_le(encode_utf8(v@).len() as u32) + encode_utf8(v@),
        ));
        r
    }

    /// Reads `len` bytes at the read cursor and decodes them lossily as
    /// UTF-8, advancing past them.  A zero-length read returns the empty
    /// string and touches nothing.
    pub fn read_string(&mut self, len: usize) -> (r: String)
        requires
            len > 0 ==> old(self)@.rpos + len <= old(self)@.data.len(),
        ensures
            len == 0 ==> r@ == Seq::<char>::empty() && final(self)@ == old(self)@,
            len > 0 ==> ({
                let body = old(self)@.bytes_at(old(self)@.rpos as int, len as int);
                &&& final(self)@ == old(self)@.after_read(len as nat)
                &&& r@ == lossy_chars(body)
                &&& valid_utf8(body) ==> r@ == decode_utf8(body)
            }),
    {
        if len == 0 {
            return String::new();
        }
        let v = self.take_vec(self.get_reader_index(), len);
        self.advance_read(len);
        lossy_string(v.as_slice())
    }

    /// Reads a one-byte length prefix, then that many bytes as a lossily
    /// decoded UTF-8 string, advancing past both.
    pub fn read_string_with_u8_be_len(&mut self) -> (r: String)
        requires
            old(self)@.rpos + 1 <= old(self)@.data.len(),
            old(self)@.rpos + 1 + u8_of(old(self)@.bytes_at(old(self)@.rpos as int, 1)) <= old(
                self,
            )@.data.len(),
        ensures
            ({
                let len = u8_of(old(self)@.bytes_at(old(self)@.rpos as int, 1)) as int;
                let body = old(self)@.data.subrange(
                    old(self)@.rpos as int + 1,
                    old(self)@.rpos as int + 1 + len,
                );
                &&& final(self)@ == old(self)@.after_read((1 + len) as nat)
                &&& len == 0 ==> r@ == Seq::<char>::empty()
                &&& len > 0 ==> r@ == lossy_chars(body) && (valid_utf8(body) ==> r@
                    == decode_utf8(body))
            }),
    {
        let len = self.read_u8();
        let r = self.read_string(len as usize);
        assert(self@ =~= old(self)@.after_read(
            (1 + u8_of(old(self)@.bytes_at(old(self)@.rpos as int, 1))) as nat,
        ));
        r
    }

    /// Reads a two-byte big-endian length prefix, then that many bytes as a
    /// lossily decoded UTF-8 string, advancing past both.
    pub fn read_string_with_u16_be_len(&mut self) -> (r: String)
        requires
            old(self)@.rpos + 2 <= old(self)@.data.len(),
            old(self)@.rpos + 2 + u16_of_be(old(self)@.bytes_at(old(self)@.rpos as int, 2))
                <= old(self)@.data.len(),
        ensures
            ({
                let len = u16_of_be(old(self)@.bytes_at(old(self)@.rpos as int, 2)) as int;
                let body = old(self)@.data.subrange(
                    old(self)@.rpos as int + 2,
                    old(self)@.rpos as int + 2 + len,
                );
                &&& final(self)@ == old(self)@.after_read((2 + len) as nat)
                &&& len == 0 ==> r@ == Seq::<char>::empty()
                &&& len > 0 ==> r@ == lossy_chars(body) && (valid_utf8(body) ==> r@
                    == decode_utf8(body))
            }),
    {
        let len = self.read_u16_be();
        let r = self.read_string(len as usize);
        assert(self@ =~= old(self)@.after_read(
            (2 + u16_of_be(old(self)@.bytes_at(old(self)@.rpos as int, 2))) as nat,
        ));
        r
    }

    /// Reads a two-byte little-endian length prefix, then that many bytes
    /// as a lossily decoded UTF-8 string, advancing past both.
    pub fn read_string_with_u16_le_len(&mut self) -> (r: String)
        requires
            old(self)@.rpos + 2 <= old(self)@.data.len(),
            old(self)@.rpos + 2 + u16_of_le(old(self)@.bytes_at(old(self)@.rpos as int, 2))
                <= old(self)@.data.len(),
        ensures
            ({
                let len = u16_of_le(old(self)@.bytes_at(old(self)@.rpos as int, 2)) as int;
                let body = old(self)@.data.subrange(
                    old(self)@.rpos as int + 2,
                    old(self)@.rpos as int + 2 + len,
                );
                &&& final(self)@ == old(self)@.after_read((2 + len) as nat)
                &&& len == 0 ==> r@ == Seq::<char>::empty()
                &&& len > 0 ==> r@ == lossy_chars(body) && (valid_utf8(body) ==> r@
                    == decode_utf8(body))
            }),
    {
        let len = self.read_u16_le();
        let r = self.read_string(len as usize);
        assert(self@ =~= old(self)@.after_read(
            (2 + u16_of_le(old(self)@.bytes_at(old(self)@.rpos as int, 2))) as nat,
        ));
        r
    }

    /// Reads a four-byte big-endian length prefix, then that many bytes as
    /// a lossily decoded UTF-8 string, advancing past both.
    pub fn read_string_with_u32_be_len(&mut self) -> (r: String)
        requires
            old(self)@.rpos + 4 <= old(self)@.data.len(),
            old(self)@.rpos + 4 + u32_of_be(old(self)@.bytes_at(old(self)@.rpos as int, 4))
                <= old(self)@.data.len(),
        ensures
            ({
                let len = u32_of_be(old(self)@.bytes_at(old(self)@.rpos as int, 4)) as int;
                let body = old(self)@.data.subrange(
                    old(self)@.rpos as int + 4,
                    old(self)@.rpos as int + 4 + len,
                );
                &&& final(self)@ == old(self)@.after_read((4 + len) as nat)
                &&& len == 0 ==> r@ == Seq::<char>::empty()
                &&& len > 0 ==> r@ == lossy_chars(body) && (valid_utf8(body) ==> r@
                    == decode_utf8(body))
            }),
    {
        let len = self.read_u32_be();
        let r = self.read_string(len as usize);
        assert(self@ =~= old(self)@.after_read(
            (4 + u32_of_be(old(self)@.bytes_at(old(self)@.rpos as int, 4))) as nat,
        ));
        r
    }

    /// Reads a four-byte little-endian length prefix, then that many bytes
    /// as a lossily decoded UTF-8 string, advancing past both.
    pub fn read_string_with_u32_le_len(&mut self) -> (r: String)
        requires
            old(self)@.rpos + 4 <= old(self)@.data.len(),
            old(self)@.rpos + 4 + u32_of_le(old(self)@.bytes_at(old(self)@.rpos as int, 4))
                <= old(self)@.data.len(),
        ensures
            ({
                let len = u32_of_le(old(self)@.bytes_at(old(self)@.rpos as int, 4)) as int;
                let body = old(self)@.data.subrange(
                    old(self)@.rpos as int + 4,
                    old(self)@.rpos as int + 4 + len,
                );
                &&& final(self)@ == old(self)@.after_read((4 + len) as nat)
                &&& len == 0 ==> r@ == Seq::<char>::empty()
                &&& len > 0 ==> r@ == lossy_chars(body) && (valid_utf8(body) ==> r@
                    == decode_utf8(body))
            }),
    {
        let len = self.read_u32_le();
        let r = self.read_string(len as usize);
        assert(self@ =~= old(self)@.after_read(
            (4 + u32_of_le(old(self)@.bytes_at(old(self)@.rpos as int, 4))) as nat,
        ));
        r
    }
}

} // verus!
