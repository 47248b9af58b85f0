//! The addresses that the link step fixes for the kernel image.

use vstd::prelude::*;
use crate::memory::WORD_BYTES;

verus! {

/// A half-open interval `[start, end)` of byte addresses.
#[derive(Clone, Copy, Debug, PartialEq, Eq)]
pub struct Segment {
    pub start: usize,
    pub end: usize,
}

impl Segment {
    /// Whether the bounds are in order.
    pub open spec fn well_formed(self) -> bool {
        self.start <= self.end
    }

    /// The number of bytes between the bounds.
    pub open spec fn byte_len(self) -> int {
        self.end - self.start
    }
}

/// Where each part of the kernel image lies in memory.
#[derive(Clone, Copy, Debug, PartialEq, Eq)]
pub struct MemoryLayout {
    /// Code, from `stext` to `etext`.
    pub text: Segment,
    /// Read-only data, from `srodata` to `erodata`.
    pub rodata: Segment,
    /// Initialised data, from `sdata` to `edata`.
    pub data: Segment,
    /// The boot stack, from `boot_stack_lower_bound` to `boot_stack_top`.
    pub boot_stack: Segment,
    /// Uninitialised data, from `sbss` to `ebss`.
    pub bss: Segment,
}

impl MemoryLayout {
    /// What the link step is to guarantee: the bounds of every segment are in
    /// order, and the uninitialised data is a whole number of words long.
    pub open spec fn well_formed(self) -> bool {
        &&& self.text.well_formed()
        &&& self.rodata.well_formed()
        &&& self.data.well_formed()
        &&& self.boot_stack.well_formed()
        &&& self.bss.well_formed()
        &&& self.bss.byte_len() % (WORD_BYTES as int) == 0
    }
}

} // verus!
