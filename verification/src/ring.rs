//! The descriptor ring: one queue's DMA descriptor array and its packet
//! buffers, and the programming of the queue's base-address, length and
//! control registers.

use core::marker::PhantomData;

use vstd::prelude::*;

use crate::descriptor::Descriptor;
use crate::dma::{DmaAllocator, DmaDirection, DmaRegion};
use crate::regs::{rdbah, rdbal, rdlen, spec_rdbah, spec_rdbal, spec_rdlen, Reg, RegisterBus};
use crate::IgbError;

verus! {

/// The fixed depth every ring is constructed with.
pub const DEFAULT_RING_SIZE: usize = 256;

/// Size in bytes of one descriptor record.
pub const DESCRIPTOR_BYTES: u32 = 16;

/// The deepest ring this core programs: the ring-length register takes
/// the byte length, so the depth is a small fixed bound.
pub const MAX_RING_SIZE: usize = 4096;

/// The byte length of one ring's packet-buffer region: depth slots of
/// `sz` bytes each.
pub open spec fn spec_ring_buffer_bytes(count: u32, sz: u32) -> int {
    count * sz
}

/// One queue's descriptor ring: a contiguous, DMA-coherent, 4096-byte
/// aligned array of fixed-size descriptor slots, plus the packet-buffer
/// regions backing it.
pub struct Ring<D: Descriptor> {
    /// The descriptor array's allocation: its bus address is what the
    /// base-address registers are programmed from.
    pub descriptors: DmaRegion,
    /// The fixed number of descriptor slots.
    count: u32,
    /// The queue this ring serves.
    queue_index: u32,
    /// The register index the queue's registers are selected by.
    reg_idx: u32,
    /// The packet-buffer regions allocated for this ring.
    rx_buffers: Vec<DmaRegion>,
    /// The direction's descriptor format.
    format: PhantomData<D>,
}

impl<D: Descriptor> Ring<D> {
    #[verifier::type_invariant]
    spec fn wf(&self) -> bool {
        0 < self.count <= MAX_RING_SIZE && self.reg_idx < 16
    }

    /// The descriptor array's allocation.
    pub closed spec fn spec_descriptors(&self) -> DmaRegion {
        self.descriptors
    }

    /// The fixed number of descriptor slots.
    pub closed spec fn spec_count(&self) -> u32 {
        self.count
    }

    /// The register index the queue's registers are selected by.
    pub closed spec fn spec_reg_idx(&self) -> u32 {
        self.reg_idx
    }

    /// The packet-buffer regions allocated for this ring.
    pub closed spec fn spec_rx_buffers(&self) -> Seq<DmaRegion> {
        self.rx_buffers@
    }

    /// Allocate the descriptor array: `size` slots of the fixed record
    /// size, DMA-coherent, zero-initialized, 4096-byte aligned. Fails
    /// with the no-memory error exactly when the allocator does.
    pub fn new<A: DmaAllocator>(alloc: &mut A, size: usize) -> (r: Result<Ring<D>, IgbError>)
        requires
            0 < size <= MAX_RING_SIZE,
        ensures
            r matches Ok(ring) ==> {
                &&& ring.spec_count() == size
                &&& ring.spec_reg_idx() == 0
                &&& ring.spec_descriptors().len == size * DESCRIPTOR_BYTES
                &&& ring.spec_descriptors().bus_addr as int % 4096 == 0
                &&& ring.spec_rx_buffers().len() == 0
            },
            r matches Err(e) ==> e == IgbError::NoMemory,
            // where the allocator promises the next region, the ring is
            // built over exactly that region, so a chosen bus address can
            // be traced into the base-address registers
            old(alloc).spec_next_region((size * 16) as usize, 4096) matches Some(promised)
                ==> r matches Ok(ring) && ring.spec_descriptors() == promised,
    {
        let bytes: usize = size * 16;
        match alloc.allocate(bytes, 4096, DmaDirection::Bidirectional) {
            Some(descriptors) => Ok(
                Ring {
                    descriptors,
                    count: size as u32,
                    queue_index: 0,
                    reg_idx: 0,
                    rx_buffers: Vec::new(),
                    format: PhantomData,
                },
            ),
            None => Err(IgbError::NoMemory),
        }
    }

    /// Bring the queue up: compute the per-packet buffer size through the
    /// format (a direction without the query allocates no buffers),
    /// allocate one contiguous region of depth times buffer size, program
    /// the base-address and length registers from the descriptor array's
    /// bus address and byte length, and enable the queue.
    ///
    /// The base-address registers are written before the queue is
    /// enabled.
    pub fn init<B: RegisterBus, A: DmaAllocator>(
        &mut self,
        reg: &mut Reg<B>,
        alloc: &mut A,
    ) -> (r: Result<(), IgbError>)
        ensures
            final(self).spec_descriptors() == old(self).spec_descriptors(),
            final(self).spec_count() == old(self).spec_count(),
            final(self).spec_reg_idx() == old(self).spec_reg_idx(),
            old(self).spec_rx_buffers().len() <= final(self).spec_rx_buffers().len() <= old(
                self,
            ).spec_rx_buffers().len() + 1,
            forall|o: u32|
                {
                    &&& o != spec_rdbal(old(self).spec_reg_idx())
                    &&& o != spec_rdbah(old(self).spec_reg_idx())
                    &&& o != spec_rdlen(old(self).spec_reg_idx())
                    &&& !D::spec_touches(old(self).spec_reg_idx(), o)
                } ==> #[trigger] final(reg).bus.reg_val(o) == old(reg).bus.reg_val(o),
            // the only registers written are the three ring registers and
            // the queue control: any other read-stable register keeps its
            // value
            forall|o: u32|
                {
                    &&& o != spec_rdbal(old(self).spec_reg_idx())
                    &&& o != spec_rdbah(old(self).spec_reg_idx())
                    &&& o != spec_rdlen(old(self).spec_reg_idx())
                    &&& o != D::spec_ctl_offset(old(self).spec_reg_idx())
                    &&& !B::read_sensitive(o)
                } ==> #[trigger] final(reg).bus.reg_val(o) == old(reg).bus.reg_val(o),
            r matches Ok(()) ==> {
                // either the direction has no buffer query, and the buffer
                // list is untouched, or exactly one region of depth times
                // the queried per-packet size was allocated and retained
                ||| final(self).spec_rx_buffers() == old(self).spec_rx_buffers()
                ||| {
                    &&& final(self).spec_rx_buffers().len() == old(self).spec_rx_buffers().len()
                        + 1
                    &&& forall|j: int|
                        0 <= j < old(self).spec_rx_buffers().len()
                            ==> #[trigger] final(self).spec_rx_buffers()[j] == old(
                            self,
                        ).spec_rx_buffers()[j]
                    &&& exists|sz: u32|
                        0 < sz <= 2048 && final(self).spec_rx_buffers().last().len as int
                            == #[trigger] spec_ring_buffer_bytes(old(self).spec_count(), sz)
                }
            },
            r matches Ok(()) ==> {
                &&& final(reg).bus.reg_val(spec_rdbal(old(self).spec_reg_idx())) == (old(
                    self,
                ).spec_descriptors().bus_addr & 0xffffffff) as u32
                &&& final(reg).bus.reg_val(spec_rdbah(old(self).spec_reg_idx())) == (old(
                    self,
                ).spec_descriptors().bus_addr >> 32) as u32
                &&& final(reg).bus.reg_val(spec_rdlen(old(self).spec_reg_idx())) == old(
                    self,
                ).spec_count() * DESCRIPTOR_BYTES
                &&& final(reg).bus.reg_val(D::spec_ctl_offset(old(self).spec_reg_idx()))
                    & D::spec_enable_mask() != 0
            },
            r matches Err(e) ==> e == IgbError::NoMemory || e == IgbError::Timeout || e
                == IgbError::UnknownBufferSize,
    {
        proof {
            use_type_invariant(&*self);
            D::properties(self.reg_idx);
        }
        let idx = self.reg_idx;

        let buffer_size = match D::buffer_size(reg, idx) {
            Ok(sz) => Some(sz),
            Err(IgbError::Unsupported) => None,
            Err(e) => {
                return Err(e);
            },
        };

        if let Some(sz) = buffer_size {
            proof {
                use_type_invariant(&*self);
            }
            assert(self.count * sz <= 4096 * 2048) by (nonlinear_arith)
                requires
                    self.count <= 4096,
                    0 < sz <= 2048,
            ;
            let bytes = (self.count * sz) as usize;
            let buffer = match alloc.allocate(bytes, sz as usize, DmaDirection::Bidirectional) {
                Some(b) => b,
                None => {
                    return Err(IgbError::NoMemory);
                },
            };
            let mut buffers: Vec<DmaRegion> = Vec::new();
            core::mem::swap(&mut buffers, &mut self.rx_buffers);
            buffers.push(buffer);
            core::mem::swap(&mut buffers, &mut self.rx_buffers);
            proof {
                assert(self.rx_buffers@.last().len as int == spec_ring_buffer_bytes(
                    old(self).spec_count(),
                    sz,
                ));
            }
        }

        let phy_addr = self.descriptors.bus_addr;
        reg.write_32(rdbal(idx), #[verifier::truncate] ((phy_addr & 0x00000000ffffffff) as u32));
        reg.write_32(rdbah(idx), #[verifier::truncate] ((phy_addr >> 32) as u32));
        reg.write_32(rdlen(idx), self.count * DESCRIPTOR_BYTES);

        D::enable_queue(reg, idx)
    }
}

} // verus!
