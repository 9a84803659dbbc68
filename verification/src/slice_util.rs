//! Free-standing slice splicing helpers: concatenation, insertion, deletion
//! and range copying over arbitrary copyable element slices.  They operate on
//! their arguments alone and are independent of the buffer's cursor state.

use vstd::prelude::*;
use vstd::slice::slice_subrange;

verus! {

broadcast use vstd::group_vstd_default;

/// The concatenation of two slices as a fresh vector.
pub fn append<T: Copy>(src: &[T], dest: &[T]) -> (r: Vec<T>)
    ensures
        r@ == src@ + dest@,
{
    let mut f: Vec<T> = Vec::new();
    let n = src.len();
    let mut i: usize = 0;
    while i < n
        invariant
            i <= n,
            n == src@.len(),
            f@ == src@.subrange(0, i as int),
        decreases n - i,
    {
        f.push(src[i]);
        assert(f@ =~= src@.subrange(0, i + 1));
        i = i + 1;
    }
    let m = dest.len();
    let mut j: usize = 0;
    while j < m
        invariant
            j <= m,
            m == dest@.len(),
            f@ == src@ + dest@.subrange(0, j as int),
        decreases m - j,
    {
        f.push(dest[j]);
        assert(f@ =~= src@ + dest@.subrange(0, j + 1));
        j = j + 1;
    }
    assert(f@ =~= src@ + dest@);
    f
}

/// A copy of `dest` with the elements `src[src_start..src_end]` inserted at
/// position `dest_start`.
pub fn insert_slice<T: Copy>(
    src: &[T],
    src_start: usize,
    src_end: usize,
    dest: &[T],
    dest_start: usize,
) -> (r: Vec<T>)
    requires
        src_start <= src_end <= src@.len(),
        dest_start <= dest@.len(),
    ensures
        r@ == dest@.subrange(0, dest_start as int) + src@.subrange(
            src_start as int,
            src_end as int,
        ) + dest@.subrange(dest_start as int, dest@.len() as int),
{
    let head = slice_subrange(dest, 0, dest_start);
    let mid = slice_subrange(src, src_start, src_end);
    let tail = slice_subrange(dest, dest_start, dest.len());
    let front = append(head, mid);
    let r = append(front.as_slice(), tail);
    assert(r@ =~= dest@.subrange(0, dest_start as int) + src@.subrange(
        src_start as int,
        src_end as int,
    ) + dest@.subrange(dest_start as int, dest@.len() as int));
    r
}

/// A copy of `src` with the `len` elements starting at `start` removed.
pub fn delete_slice<T: Copy>(src: &[T], start: usize, len: usize) -> (r: Vec<T>)
    requires
        start + len <= src@.len(),
    ensures
        r@ == src@.subrange(0, start as int) + src@.subrange(
            start + len,
            src@.len() as int,
        ),
{
    let n = src.len();
    let head = slice_subrange(src, 0, start);
    let tail = slice_subrange(src, start + len, n);
    append(head, tail)
}

/// The elements `src[src_start..src_end]` followed by the tail of `dest`
/// from `dest_start`, as a fresh vector.
pub fn copy_slice<T: Copy>(
    src: &[T],
    src_start: usize,
    src_end: usize,
    dest: &[T],
    dest_start: usize,
) -> (r: Vec<T>)
    requires
        src_start <= src_end <= src@.len(),
        dest_start <= dest@.len(),
    ensures
        r@ == src@.subrange(src_start as int, src_end as int) + dest@.subrange(
            dest_start as int,
            dest@.len() as int,
        ),
{
    let mid = slice_subrange(src, src_start, src_end);
    let tail = slice_subrange(dest, dest_start, dest.len());
    append(mid, tail)
}

} // verus!
