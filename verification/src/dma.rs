//! The DMA allocator capability.
//!
//! The core treats coherent, bus-addressable memory as something a
//! collaborator provides: one allocation is a [`DmaRegion`] — a bus
//! address and a length — and the allocator keeps the memory itself
//! alive for the device's lifetime (this core never frees a buffer once
//! allocated). [`SimDma`](crate::sim::SimDma) is the verified bump
//! allocator used to drive the core in tests.

use vstd::prelude::*;

verus! {

/// One DMA-coherent, zero-initialized allocation, named by its bus
/// address. The backing memory belongs to the allocator that made it.
#[derive(Debug, Clone, Copy, PartialEq, Eq, Structural)]
pub struct DmaRegion {
    /// Bus address of the region's first byte.
    pub bus_addr: u64,
    /// Length of the region in bytes.
    pub len: usize,
}

/// Which side writes a DMA region.
#[derive(Debug, Clone, Copy, PartialEq, Eq, Structural)]
pub enum DmaDirection {
    /// The processor writes, the device reads.
    ToDevice,
    /// The device writes, the processor reads.
    FromDevice,
    /// Both sides read and write.
    Bidirectional,
}

/// The smallest multiple of `a` at or above `n` (for positive `a`).
pub open spec fn spec_align_up(n: int, a: int) -> int {
    if a <= 0 {
        n
    } else if n % a == 0 {
        n
    } else {
        n + a - n % a
    }
}

/// Allocates coherent, bus-addressable, zero-initialized memory.
pub trait DmaAllocator: Sized {
    /// The region the next allocation of `byte_len` bytes at alignment
    /// `align` is promised to return, where the allocator makes such a
    /// promise. The default promises nothing; an allocator with chosen
    /// addresses overrides it, and callers can then trace an address
    /// through whatever was built over the allocation.
    open spec fn spec_next_region(&self, byte_len: usize, align: usize) -> Option<DmaRegion> {
        None
    }

    /// Allocate `byte_len` bytes aligned to `align`.
    ///
    /// `None` means the allocation failed; a returned region has exactly
    /// the asked length and alignment, and is the promised one where the
    /// allocator promises an address.
    fn allocate(&mut self, byte_len: usize, align: usize, direction: DmaDirection) -> (r: Option<
        DmaRegion,
    >)
        requires
            0 < align,
        ensures
            r matches Some(region) ==> {
                &&& region.len == byte_len
                &&& region.bus_addr as int % align as int == 0
            },
            old(self).spec_next_region(byte_len, align) matches Some(promised) ==> r == Some(
                promised,
            ),
    ;
}

} // verus!
