//! Counting and locating the fixed-size entries of a table section.

use vstd::prelude::*;

verus! {

/// Number of entries of `entsize` bytes in a payload of `size` bytes; zero
/// when the entry size is zero.
pub open spec fn entry_count(size: u64, entsize: u64) -> int {
    if entsize != 0 {
        size as int / entsize as int
    } else {
        0
    }
}

/// Entry `index` of a table, read as a record of `recsize` bytes, lies within
/// a payload of `len` bytes.
pub open spec fn entry_present(size: u64, entsize: u64, index: u64, recsize: int, len: int) -> bool {
    index < entry_count(size, entsize) && index * entsize + recsize <= len
}

/// Computes [`entry_count`].
pub fn entries_num(size: u64, entsize: u64) -> (r: u64)
    ensures
        r == entry_count(size, entsize),
{
    if entsize != 0 {
        size / entsize
    } else {
        0
    }
}

/// Entries before the last one end within the declared size.
pub proof fn lemma_entry_within_size(size: u64, entsize: u64, index: u64)
    requires
        index < entry_count(size, entsize),
    ensures
        index * entsize + entsize <= size,
{
    let q = size as int / entsize as int;
    assert(q * entsize <= size) by (nonlinear_arith)
        requires
            entsize > 0,
            q == size as int / entsize as int,
    ;
    assert(index * entsize + entsize <= q * entsize) by (nonlinear_arith)
        requires
            index + 1 <= q,
            entsize > 0,
    ;
}

/// In a table whose payload holds `size` bytes and whose entries are at
/// least `recsize` bytes wide, an entry is present exactly when its index is
/// below the count.
pub proof fn lemma_index_in_range_present(size: u64, entsize: u64, index: u64, recsize: int, len: int)
    requires
        len == size,
        recsize <= entsize,
    ensures
        entry_present(size, entsize, index, recsize, len) <==> index < entry_count(size, entsize),
{
    if index < entry_count(size, entsize) {
        lemma_entry_within_size(size, entsize, index);
    }
}

/// Byte offset of entry `index`, when it is present.
pub fn entry_offset(size: u64, entsize: u64, index: u64, recsize: u64, len: usize) -> (r: Option<usize>)
    ensures
        r is Some <==> entry_present(size, entsize, index, recsize as int, len as int),
        r matches Some(o) ==> o == index * entsize,
{
    let count = entries_num(size, entsize);
    if index >= count {
        return None;
    }
    proof {
        lemma_entry_within_size(size, entsize, index);
    }
    let off = index * entsize;
    let n = len as u64;
    if off > n || n - off < recsize {
        return None;
    }
    Some(off as usize)
}

} // verus!
