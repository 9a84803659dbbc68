//! The cursor buffer: a growable byte store with independent read and write
//! cursors, an advisory capacity and an optional read mark.
//!
//! Appending writes grow the store unconditionally; positional overwrites
//! (`set_*`, in [`crate::scalars`]) enforce the advisory capacity strictly.
//! Sequential reads demand, as a precondition, that the requested range lies
//! within the physical store.

use crate::error::ByteBufError;
use vstd::prelude::*;
use vstd::slice::slice_subrange;
use vstd::slice::slice_to_vec;

verus! {

broadcast use vstd::group_vstd_default;

/// Result type of the fallible buffer operations.
pub type ByteResult<T> = Result<T, ByteBufError>;

/// Capacity used when the caller requests none.
pub const CHUNK_SIZE: usize = 1024;

/// Mathematical model of a buffer: the bytes of the backing store, the
/// advisory capacity, the two cursor positions and the optional read mark.
#[verifier::ext_equal]
pub struct BufModel {
    /// All physically present bytes of the backing store.
    pub data: Seq<u8>,
    /// The advisory capacity fixed at construction.
    pub cap: nat,
    /// Position of the next byte to read.
    pub rpos: nat,
    /// Position one past the last logically written byte.
    pub wpos: nat,
    /// The saved read position, if a mark is present.
    pub rmark: Option<nat>,
}

impl BufModel {
    /// `bytes` appended at the physical end of the store; the write cursor
    /// advances by their number.
    pub open spec fn after_append(self, bytes: Seq<u8>) -> BufModel {
        BufModel { data: self.data + bytes, wpos: self.wpos + bytes.len(), ..self }
    }

    /// The read cursor advanced by `n` bytes.
    pub open spec fn after_read(self, n: nat) -> BufModel {
        BufModel { rpos: self.rpos + n, ..self }
    }

    /// The read cursor moved to the absolute position `v`.
    pub open spec fn with_rpos(self, v: nat) -> BufModel {
        BufModel { rpos: v, ..self }
    }

    /// The current read position saved as the mark.
    pub open spec fn after_mark(self) -> BufModel {
        BufModel { rmark: Some(self.rpos), ..self }
    }

    /// The read cursor restored from the mark, which is consumed; without a
    /// mark nothing changes.
    pub open spec fn after_reset(self) -> BufModel {
        match self.rmark {
            Some(m) => BufModel { rpos: m, rmark: None, ..self },
            None => self,
        }
    }

    /// The store overwritten with `bytes` at absolute position `pos`.  Where
    /// the store ends before `pos + bytes.len()` it is first extended with
    /// zero bytes.  Neither cursor moves.
    pub open spec fn with_store(self, pos: int, bytes: Seq<u8>) -> BufModel {
        let end = pos + bytes.len();
        let n = if self.data.len() >= end {
            self.data.len() as int
        } else {
            end
        };
        BufModel {
            data: Seq::new(
                n as nat,
                |i: int|
                    if pos <= i < end {
                        bytes[i - pos]
                    } else if i < self.data.len() {
                        self.data[i]
                    } else {
                        0u8
                    },
            ),
            ..self
        }
    }

    /// The `n` bytes of the store starting at `pos`.
    pub open spec fn bytes_at(self, pos: int, n: int) -> Seq<u8> {
        self.data.subrange(pos, pos + n)
    }

    /// The buffer invariant: the write cursor never points past the
    /// physical end of the store.
    pub open spec fn inv(self) -> bool {
        self.wpos <= self.data.len()
    }
}

/// A growable byte store with independent read and write cursors.
pub struct ByteBuf {
    buf: Vec<u8>,
    capacity: usize,
    read_mark: Option<usize>,
    read_index: usize,
    write_index: usize,
}

impl View for ByteBuf {
    type V = BufModel;

    closed spec fn view(&self) -> BufModel {
        BufModel {
            data: self.buf@,
            cap: self.capacity as nat,
            rpos: self.read_index as nat,
            wpos: self.write_index as nat,
            rmark: match self.read_mark {
                Some(m) => Some(m as nat),
                None => None,
            },
        }
    }
}

/// Builds the reverse of a byte slice.
pub(crate) fn rev_vec(bytes: &[u8]) -> (r: Vec<u8>)
    ensures
        r@ == bytes@.reverse(),
{
    let n = bytes.len();
    let mut r: Vec<u8> = Vec::new();
    let mut i: usize = 0;
    while i < n
        invariant
            i <= n,
            n == bytes@.len(),
            r@.len() == i,
            forall|j: int| 0 <= j < i ==> r@[j] == bytes@[n - 1 - j],
        decreases n - i,
    {
        r.push(bytes[n - 1 - i]);
        i = i + 1;
    }
    assert(r@ =~= bytes@.reverse());
    r
}

impl ByteBuf {
    /// The write cursor never points past the physical end of the store.
    pub open spec fn wf(&self) -> bool {
        self@.inv()
    }

    /// Creates an empty buffer with the given capacity hint; a hint of zero
    /// falls back to [`CHUNK_SIZE`].
    pub fn new_with_capacity(capacity: usize) -> (r: ByteBuf)
        ensures
            r.wf(),
            r@.data == Seq::<u8>::empty(),
            r@.cap == if capacity == 0 {
                CHUNK_SIZE as nat
            } else {
                capacity as nat
            },
            r@.rpos == 0,
            r@.wpos == 0,
            r@.rmark is None,
    {
        let cap = if capacity < 1 {
            CHUNK_SIZE
        } else {
            capacity
        };
        ByteBuf {
            buf: Vec::with_capacity(cap),
            capacity: cap,
            read_mark: None,
            read_index: 0,
            write_index: 0,
        }
    }

    /// Creates a buffer holding a copy of `src`, positioned for reading it
    /// from the start; the capacity is the length of `src`.
    pub fn new_from(src: &[u8]) -> (r: ByteBuf)
        ensures
            r.wf(),
            r@.data == src@,
            r@.cap == src@.len(),
            r@.rpos == 0,
            r@.wpos == src@.len(),
            r@.rmark is None,
    {
        let v = slice_to_vec(src);
        let n = v.len();
        ByteBuf { buf: v, capacity: n, read_mark: None, read_index: 0, write_index: n }
    }

    /// The advisory capacity supplied at construction.
    pub fn capacity(&self) -> (r: usize)
        ensures
            r == self@.cap,
    {
        self.capacity
    }

    /// The position one past the last logically written byte.
    pub fn get_writer_index(&self) -> (r: usize)
        ensures
            r == self@.wpos,
    {
        self.write_index
    }

    /// The position of the next byte to read.
    pub fn get_reader_index(&self) -> (r: usize)
        ensures
            r == self@.rpos,
    {
        self.read_index
    }

    /// Moves the read cursor to the absolute position `v`; no bounds are
    /// enforced here, a later out-of-range read is the caller's error.
    pub fn set_reader_index(&mut self, v: usize)
        ensures
            final(self)@ == old(self)@.with_rpos(v as nat),
    {
        self.read_index = v;
    }

    /// Saves the current read position as the mark, replacing any earlier
    /// mark.
    pub fn mark_reader_index(&mut self)
        ensures
            final(self)@ == old(self)@.after_mark(),
    {
        self.read_mark = Some(self.read_index);
    }

    /// Restores the read position from the mark and consumes it; does
    /// nothing when no mark is present.
    pub fn reset_reader_index(&mut self)
        ensures
            final(self)@ == old(self)@.after_reset(),
    {
        match self.read_mark {
            Some(m) => {
                self.read_index = m;
                self.read_mark = None;
            },
            None => {},
        }
    }

    /// Advances the read cursor by `n`.  Fails with a bounds error, moving
    /// nothing, when `n` exceeds the write position; on success returns the
    /// new read position.
    pub fn skip_index(&mut self, n: usize) -> (r: ByteResult<usize>)
        requires
            n <= old(self)@.wpos ==> old(self)@.rpos + n <= usize::MAX,
        ensures
            n > old(self)@.wpos ==> r is Err && final(self)@ == old(self)@,
            n <= old(self)@.wpos ==> final(self)@ == old(self)@.after_read(n as nat) && r
                == Ok::<usize, ByteBufError>((old(self)@.rpos + n) as usize),
    {
        if n > self.write_index {
            return Err(ByteBufError::new("exceed writeIndex range".to_owned()));
        }
        self.read_index = self.read_index + n;
        Ok(self.read_index)
    }

    /// Number of bytes between the read and the write cursor.
    pub fn readable_bytes(&self) -> (r: usize)
        requires
            self@.rpos <= self@.wpos,
        ensures
            r == self@.wpos - self@.rpos,
    {
        self.get_writer_index() - self.get_reader_index()
    }

    /// True when at least one written byte remains to be read.
    pub fn is_readable(&self) -> (r: bool)
        requires
            self@.rpos <= self@.wpos,
        ensures
            r == (self@.rpos < self@.wpos),
    {
        let n = self.readable_bytes();
        if n > 0 {
            true
        } else {
            false
        }
    }

    /// True when the write cursor has not reached the advisory capacity.
    /// Advisory only: appending writes do not consult it.
    pub fn is_writable(&self) -> (r: bool)
        ensures
            r == (self@.wpos < self@.cap),
    {
        if self.write_index < self.capacity {
            true
        } else {
            false
        }
    }

    /// The whole physical backing store, including bytes past the write
    /// cursor.
    pub fn as_slice(&self) -> (r: &[u8])
        ensures
            r@ == self@.data,
    {
        self.buf.as_slice()
    }

    /// The materialized region: the store's prefix up to the write cursor.
    pub fn available_bytes(&self) -> (r: &[u8])
        requires
            self.wf(),
        ensures
            r@ == self@.data.subrange(0, self@.wpos as int),
    {
        slice_subrange(self.buf.as_slice(), 0, self.write_index)
    }

    /// A snapshot of the buffer: same bytes, capacity and cursors, with the
    /// mark cleared.  The copy owns its storage, so later changes to either
    /// buffer leave the other untouched.
    pub fn clone(&self) -> (r: ByteBuf)
        ensures
            r@.data == self@.data,
            r@.cap == self@.cap,
            r@.rpos == self@.rpos,
            r@.wpos == self@.wpos,
            r@.rmark is None,
    {
        ByteBuf {
            buf: slice_to_vec(self.buf.as_slice()),
            capacity: self.capacity,
            read_mark: None,
            read_index: self.read_index,
            write_index: self.write_index,
        }
    }

    /// A snapshot holding exactly the materialized region: the store is cut
    /// to the write position, the read cursor starts at zero and the mark is
    /// cleared.  The copy owns its storage.
    pub fn deep_clone(&self) -> (r: ByteBuf)
        requires
            self.wf(),
        ensures
            r.wf(),
            r@.data == self@.data.subrange(0, self@.wpos as int),
            r@.cap == self@.cap,
            r@.rpos == 0,
            r@.wpos == self@.wpos,
            r@.rmark is None,
    {
        let avail = slice_subrange(self.buf.as_slice(), 0, self.write_index);
        ByteBuf {
            buf: slice_to_vec(avail),
            capacity: self.capacity,
            read_mark: None,
            read_index: 0,
            write_index: self.write_index,
        }
    }

    /// Appends the bytes of a slice, advancing the write cursor past the
    /// physical end of the store.
    pub(crate) fn append_slice(&mut self, bytes: &[u8])
        requires
            old(self)@.wpos + bytes@.len() <= usize::MAX,
        ensures
            final(self)@ == old(self)@.after_append(bytes@),
    {
        let n = bytes.len();
        let mut i: usize = 0;
        while i < n
            invariant
                i <= n,
                n == bytes@.len(),
                self.buf@ == old(self).buf@ + bytes@.subrange(0, i as int),
                self.capacity == old(self).capacity,
                self.read_mark == old(self).read_mark,
                self.read_index == old(self).read_index,
                self.write_index == old(self).write_index,
            decreases n - i,
        {
            self.buf.push(bytes[i]);
            assert(self.buf@ =~= old(self).buf@ + bytes@.subrange(0, i + 1));
            i = i + 1;
        }
        assert(bytes@.subrange(0, n as int) =~= bytes@);
        self.write_index = self.write_index + n;
        assert(self@ =~= old(self)@.after_append(bytes@));
    }

    /// Appends the bytes of a slice in reverse order.
    pub(crate) fn append_slice_rev(&mut self, bytes: &[u8])
        requires
            old(self)@.wpos + bytes@.len() <= usize::MAX,
        ensures
            final(self)@ == old(self)@.after_append(bytes@.reverse()),
    {
        let r = rev_vec(bytes);
        self.append_slice(r.as_slice());
    }

    /// The byte of the store at position `pos`.
    pub(crate) fn byte_at(&self, pos: usize) -> (r: u8)
        requires
            pos < self@.data.len(),
        ensures
            r == self@.data[pos as int],
    {
        self.buf[pos]
    }

    /// Copies `n` bytes of the store starting at `pos` into a fresh vector.
    pub(crate) fn take_vec(&self, pos: usize, n: usize) -> (r: Vec<u8>)
        requires
            pos + n <= self@.data.len(),
        ensures
            r@ == self@.data.subrange(pos as int, pos + n),
    {
        proof {
            vstd::std_specs::vec::axiom_spec_len(&self.buf);
        }
        let s = slice_subrange(self.buf.as_slice(), pos, pos + n);
        slice_to_vec(s)
    }

    /// Copies `n` bytes of the store starting at `pos`, reversed, into a
    /// fresh vector.
    pub(crate) fn take_vec_rev(&self, pos: usize, n: usize) -> (r: Vec<u8>)
        requires
            pos + n <= self@.data.len(),
        ensures
            r@ == self@.data.subrange(pos as int, pos + n).reverse(),
    {
        proof {
            vstd::std_specs::vec::axiom_spec_len(&self.buf);
        }
        let s = slice_subrange(self.buf.as_slice(), pos, pos + n);
        rev_vec(s)
    }

    /// Overwrites the store with the bytes of a slice at absolute position
    /// `pos`, extending it with zero bytes first where it is too short;
    /// neither cursor moves.
    pub(crate) fn store_slice(&mut self, pos: usize, bytes: &[u8])
        requires
            pos + bytes@.len() <= usize::MAX,
        ensures
            final(self)@ == old(self)@.with_store(pos as int, bytes@),
    {
        let n = bytes.len();
        let end = pos + n;
        let ghost oldlen = self.buf@.len();
        let ghost newlen: int = if oldlen >= end {
            oldlen as int
        } else {
            end as int
        };
        let ghost base: Seq<u8> = Seq::new(
            newlen as nat,
            |j: int|
                if j < oldlen {
                    old(self).buf@[j]
                } else {
                    0u8
                },
        );
        while self.buf.len() < end
            invariant
                end == pos + n,
                oldlen == old(self).buf@.len(),
                newlen == if oldlen >= end as int {
                    oldlen as int
                } else {
                    end as int
                },
                base == Seq::new(
                    newlen as nat,
                    |j: int|
                        if j < oldlen {
                            old(self).buf@[j]
                        } else {
                            0u8
                        },
                ),
                oldlen <= self.buf@.len() <= newlen,
                forall|j: int| 0 <= j < self.buf@.len() ==> self.buf@[j] == base[j],
                self.capacity == old(self).capacity,
                self.read_mark == old(self).read_mark,
                self.read_index == old(self).read_index,
                self.write_index == old(self).write_index,
            decreases end - self.buf@.len(),
        {
            self.buf.push(0u8);
        }
        assert(self.buf@.len() == newlen);
        let mut i: usize = 0;
        while i < n
            invariant
                i <= n,
                n == bytes@.len(),
                end == pos + n,
                end <= usize::MAX,
                end <= newlen,
                base.len() == newlen,
                self.buf@.len() == newlen,
                forall|j: int|
                    0 <= j < newlen ==> self.buf@[j] == (
                    if pos <= j < pos + i {
                        bytes@[j - pos]
                    } else {
                        base[j]
                    }),
                self.capacity == old(self).capacity,
                self.read_mark == old(self).read_mark,
                self.read_index == old(self).read_index,
                self.write_index == old(self).write_index,
            decreases n - i,
        {
            self.buf.set(pos + i, bytes[i]);
            i = i + 1;
        }
        assert(self@ =~= old(self)@.with_store(pos as int, bytes@));
    }

    /// Overwrites the store with the bytes of a slice in reverse order at
    /// absolute position `pos`.
    pub(crate) fn store_slice_rev(&mut self, pos: usize, bytes: &[u8])
        requires
            pos + bytes@.len() <= usize::MAX,
        ensures
            final(self)@ == old(self)@.with_store(pos as int, bytes@.reverse()),
    {
        let r = rev_vec(bytes);
        self.store_slice(pos, r.as_slice());
    }

    /// Advances the read cursor by `n`, known to stay within the store.
    pub(crate) fn advance_read(&mut self, n: usize)
        requires
            old(self)@.rpos + n <= old(self)@.data.len(),
        ensures
            final(self)@ == old(self)@.after_read(n as nat),
    {
        proof {
            vstd::std_specs::vec::axiom_spec_len(&self.buf);
        }
        self.read_index = self.read_index + n;
    }

    /// Copies as many bytes as `bytes` holds from the read position into
    /// `bytes`, without moving the read cursor; returns the number copied.
    pub fn get_bytes(&self, bytes: &mut Vec<u8>) -> (r: usize)
        requires
            self@.rpos + old(bytes)@.len() <= self@.data.len(),
        ensures
            r == old(bytes)@.len(),
            final(bytes)@ == self@.data.subrange(
                self@.rpos as int,
                (self@.rpos + old(bytes)@.len()) as int,
            ),
    {
        let n = bytes.len();
        let mut i: usize = 0;
        while i < n
            invariant
                i <= n,
                n == old(bytes)@.len(),
                bytes@.len() == n,
                self@.rpos + n <= self@.data.len(),
                forall|j: int| 0 <= j < i ==> bytes@[j] == self@.data[self@.rpos + j],
            decreases n - i,
        {
            proof {
                vstd::std_specs::vec::axiom_spec_len(&self.buf);
            }
            let b = self.buf[self.read_index + i];
            bytes.set(i, b);
            i = i + 1;
        }
        assert(bytes@ =~= self@.data.subrange(self@.rpos as int, self@.rpos + n as int));
        n
    }

    /// Copies as many bytes as `bytes` holds from the read position into
    /// `bytes` and advances the read cursor past them.
    pub fn read_bytes(&mut self, bytes: &mut Vec<u8>)
        requires
            old(self)@.rpos + old(bytes)@.len() <= old(self)@.data.len(),
        ensures
            final(self)@ == old(self)@.after_read(old(bytes)@.len()),
            final(bytes)@ == old(self)@.data.subrange(
                old(self)@.rpos as int,
                (old(self)@.rpos + old(bytes)@.len()) as int,
            ),
    {
        let n = self.get_bytes(bytes);
        self.advance_read(n);
    }
}

} // verus!
