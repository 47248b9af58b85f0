//! Word-addressed RAM and the routine that zeroes a region of it.
//!
//! RAM is seen as a window of consecutive 64-bit words. The window's first
//! word sits at byte address `base`, word `i` at `base + WORD_BYTES * i`.

use vstd::prelude::*;

verus! {

/// Bytes in one machine word, the step by which a region is zeroed.
pub const WORD_BYTES: usize = 8;

/// Whether a byte address falls on a word boundary.
pub open spec fn word_aligned(addr: int) -> bool {
    addr % (WORD_BYTES as int) == 0
}

/// Byte address of word `i` in a window whose first word sits at `base`.
pub open spec fn word_address(base: int, i: int) -> int {
    base + WORD_BYTES * i
}

/// Index of the word at byte address `addr` in a window whose first word sits
/// at `base`.
pub open spec fn word_index(base: int, addr: int) -> int {
    (addr - base) / (WORD_BYTES as int)
}

/// Whether a window of `words` words starting at `base` holds every byte of
/// `[start, end)`.
pub open spec fn window_covers(words: nat, base: int, start: int, end: int) -> bool {
    base <= start && end <= word_address(base, words as int)
}

/// What a caller owes before a region is zeroed: the window and both bounds
/// lie on word boundaries, and a region that is not empty lies inside the
/// window.
pub open spec fn clearable(words: nat, base: int, start: int, end: int) -> bool {
    &&& word_aligned(base)
    &&& word_aligned(start)
    &&& word_aligned(end)
    &&& start < end ==> window_covers(words, base, start, end)
}

/// The window `ram` after every word whose address lies in `[start, end)` was
/// set to zero. Words outside the region keep their value; a region with
/// `end <= start` holds no word at all.
pub open spec fn zero_filled(ram: Seq<u64>, base: int, start: int, end: int) -> Seq<u64> {
    Seq::new(
        ram.len(),
        |i: int|
            if start <= word_address(base, i) < end {
                0u64
            } else {
                ram[i]
            },
    )
}

/// Tests whether a window of `words` words at `base` may have `[start, end)`
/// zeroed.
pub fn is_clearable(words: usize, base: usize, start: usize, end: usize) -> (ok: bool)
    ensures
        ok == clearable(words as nat, base as int, start as int, end as int),
{
    if base % WORD_BYTES != 0 || start % WORD_BYTES != 0 || end % WORD_BYTES != 0 {
        false
    } else if start >= end {
        true
    } else {
        base <= start && (end - base) / WORD_BYTES <= words
    }
}

/// Zeroes the words of `ram` from address `sbss` up to, not including, `ebss`,
/// one word at a time in ascending order. With `ebss <= sbss` nothing is
/// written.
pub fn clear_bss(ram: &mut [u64], base: usize, sbss: usize, ebss: usize)
    requires
        clearable(old(ram)@.len(), base as int, sbss as int, ebss as int),
    ensures
        final(ram)@ == zero_filled(old(ram)@, base as int, sbss as int, ebss as int),
        ebss <= sbss ==> final(ram)@ == old(ram)@,
{
    let mut ptr: usize = sbss;
    while ptr < ebss
        invariant
            clearable(old(ram)@.len(), base as int, sbss as int, ebss as int),
            word_aligned(ptr as int),
            sbss < ebss ==> sbss <= ptr <= ebss,
            ebss <= sbss ==> ptr == sbss,
            ram@ =~= zero_filled(old(ram)@, base as int, sbss as int, ptr as int),
        decreases ebss - ptr,
    {
        let index: usize = (ptr - base) / WORD_BYTES;
        ram[index] = 0;
        ptr = ptr + WORD_BYTES;
    }
}

/// After a region is zeroed, each of its words reads as zero, each word
/// outside it reads as before, and the window has kept its size.
pub proof fn lemma_zero_filled_words(ram: Seq<u64>, base: int, start: int, end: int)
    ensures
        zero_filled(ram, base, start, end).len() == ram.len(),
        forall|i: int|
            0 <= i < ram.len() && start <= word_address(base, i) < end ==> #[trigger] zero_filled(
                ram,
                base,
                start,
                end,
            )[i] == 0,
        forall|i: int|
            0 <= i < ram.len() && !(start <= word_address(base, i) < end)
                ==> #[trigger] zero_filled(ram, base, start, end)[i] == ram[i],
{
}

/// Every word of a zeroed region lies in the window and reads as zero.
pub proof fn lemma_region_reads_zero(ram: Seq<u64>, base: int, start: int, end: int, addr: int)
    requires
        clearable(ram.len(), base, start, end),
        start <= addr < end,
        word_aligned(addr),
    ensures
        0 <= word_index(base, addr) < ram.len(),
        word_address(base, word_index(base, addr)) == addr,
        zero_filled(ram, base, start, end)[word_index(base, addr)] == 0,
{
}

/// Zeroing a region twice leaves memory as zeroing it once does.
pub proof fn lemma_zero_fill_idempotent(ram: Seq<u64>, base: int, start: int, end: int)
    ensures
        zero_filled(zero_filled(ram, base, start, end), base, start, end) == zero_filled(
            ram,
            base,
            start,
            end,
        ),
{
}

/// Zeroing a region that holds no byte, `end <= start`, writes no word.
pub proof fn lemma_empty_region_untouched(ram: Seq<u64>, base: int, start: int, end: int)
    requires
        end <= start,
    ensures
        zero_filled(ram, base, start, end) == ram,
{
}

} // verus!
