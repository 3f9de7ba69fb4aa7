//! Walking a list in chunks of bounded size.
//!
//! A walk is a position in the list: the chunk at a position is the next
//! `size` items, or what is left of the list if that is less.

use vstd::prelude::*;

verus! {

/// Where the chunk that starts at `pos` ends.
pub open spec fn chunk_end(len: nat, pos: nat, size: nat) -> nat {
    if pos + size <= len {
        pos + size
    } else if pos <= len {
        len
    } else {
        pos
    }
}

/// The chunk of `items` that starts at `pos`.
pub open spec fn chunk_at<T>(items: Seq<T>, pos: nat, size: nat) -> Seq<T> {
    items.subrange(pos as int, chunk_end(items.len(), pos, size) as int)
}

/// The chunks taken so far and the next one make up the list up to the next position.
pub proof fn lemma_chunks_cover<T>(items: Seq<T>, pos: nat, size: nat)
    requires
        pos <= items.len(),
    ensures
        items.take(pos as int) + chunk_at(items, pos, size) == items.take(
            chunk_end(items.len(), pos, size) as int,
        ),
        chunk_at(items, pos, size).len() <= size,
        pos < items.len() && size > 0 ==> chunk_at(items, pos, size).len() > 0,
        chunk_end(items.len(), pos, size) < items.len() ==> chunk_at(items, pos, size).len() == size,
{
    assert(items.take(pos as int) + chunk_at(items, pos, size) =~= items.take(
        chunk_end(items.len(), pos, size) as int,
    ));
}

/// Where the chunk that starts at `pos` ends.
pub fn end_of_chunk(len: usize, pos: usize, size: usize) -> (end: usize)
    ensures
        end == chunk_end(len as nat, pos as nat, size as nat),
{
    if pos > len {
        pos
    } else if size <= len - pos {
        pos + size
    } else {
        len
    }
}

/// Copies `items[from..to]`.
pub fn copy_range<T: Copy>(items: &Vec<T>, from: usize, to: usize) -> (out: Vec<T>)
    requires
        from <= to <= items@.len(),
    ensures
        out@ == items@.subrange(from as int, to as int),
{
    let mut out: Vec<T> = Vec::new();
    let mut i: usize = from;
    while i < to
        invariant
            from <= i <= to <= items@.len(),
            out@ == items@.subrange(from as int, i as int),
        decreases to - i,
    {
        out.push(items[i]);
        i += 1;
        assert(out@ =~= items@.subrange(from as int, i as int));
    }
    out
}

/// Copies the chunk of `items` that starts at `pos`.
pub fn copy_chunk<T: Copy>(items: &Vec<T>, pos: usize, size: usize) -> (out: Vec<T>)
    requires
        pos <= items@.len(),
    ensures
        out@ == chunk_at(items@, pos as nat, size as nat),
{
    copy_range(items, pos, end_of_chunk(items.len(), pos, size))
}

} // verus!
