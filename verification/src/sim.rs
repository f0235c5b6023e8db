//! A simulated register file implementing [`RegisterBus`].
//!
//! The simulation is a plain register store plus the two read-sensitive
//! behaviours the bring-up protocols poll on: the global-reset bit of the
//! device control register self-clears after a configurable number of
//! reads, and the MDI control register completes a latched MDIO request
//! (against a small simulated PHY register bank) on the read that follows
//! the request. Everything else reads back exactly what was written, so a
//! device can be driven end to end without hardware.

use vstd::prelude::*;

use crate::dma::{spec_align_up, DmaAllocator, DmaDirection, DmaRegion};
use crate::regs::{
    RegisterBus, CTRL_RST, MDIC_DATA, MDIC_E, MDIC_OP_READ, MDIC_OP_WRITE, MDIC_READY,
};

verus! {

/// Number of 32-bit words in the simulated register window.
pub const SIM_REG_WORDS: usize = 0x8000;

/// Number of simulated PHY registers reachable through MDIO.
pub const SIM_PHY_REGS: usize = 32;

/// Whether the MDI control register holds a request awaiting completion.
pub open spec fn spec_mdic_pending(cur: u32) -> bool {
    cur & (MDIC_OP_READ | MDIC_OP_WRITE) != 0 && cur & MDIC_READY == 0 && cur & MDIC_E == 0
}

/// The PHY register index a latched MDIO request names.
pub open spec fn spec_mdic_regadd(cur: u32) -> int {
    ((cur >> 16) & 0x1F) as int
}

/// Whether a read of the MDI control register at value `cur` completes a
/// write request: the one case that changes the PHY bank.
pub open spec fn spec_mdic_write_completes(cur: u32, fail: bool) -> bool {
    spec_mdic_pending(cur) && !fail && cur & MDIC_OP_WRITE != 0
}

/// What the MDI control register hands back once a read observes it: a
/// pending request completes with the error bit, a write acknowledgement,
/// or the ready bit over the read data; anything else stays as it is.
pub open spec fn spec_mdic_step(cur: u32, fail: bool, phy_val: u16) -> u32 {
    if spec_mdic_pending(cur) {
        if fail {
            cur | MDIC_E
        } else if cur & MDIC_OP_WRITE != 0 {
            cur | MDIC_READY
        } else {
            (cur & !MDIC_DATA) | (phy_val as u32) | MDIC_READY
        }
    } else {
        cur
    }
}

/// An in-memory register file with the read-step behaviours of the device.
pub struct SimBus {
    /// One word per 4-byte offset of the register window.
    mem: Vec<u32>,
    /// The simulated PHY register bank behind the MDIO protocol.
    phy: Vec<u16>,
    /// Reads of the control register left before an asserted global-reset
    /// bit self-clears.
    rst_countdown: u32,
    /// When set, a latched MDIO request completes with the error bit
    /// instead of the ready bit.
    mdic_fail: bool,
    /// Read operations performed so far.
    read_ops: Ghost<nat>,
}

impl SimBus {
    #[verifier::type_invariant]
    spec fn wf(&self) -> bool {
        self.mem@.len() == SIM_REG_WORDS && self.phy@.len() == SIM_PHY_REGS
    }

    /// Reads of the control register left before an asserted global-reset
    /// bit self-clears.
    pub closed spec fn spec_rst_countdown(&self) -> u32 {
        self.rst_countdown
    }

    /// Whether MDIO requests complete with the error bit.
    pub closed spec fn spec_mdic_fail(&self) -> bool {
        self.mdic_fail
    }

    /// The simulated PHY register at index `i`.
    pub closed spec fn spec_phy_reg(&self, i: int) -> u16 {
        if 0 <= i < self.phy@.len() {
            self.phy@[i]
        } else {
            0
        }
    }

    /// A fresh register file: every register and every PHY register zero,
    /// a global reset surviving `rst_countdown` control-register reads.
    pub fn new(rst_countdown: u32) -> (r: Self)
        ensures
            forall|o: u32| #[trigger] r.reg_val(o) == 0,
            r.reads() == 0,
            r.spec_rst_countdown() == rst_countdown,
            !r.spec_mdic_fail(),
            forall|i: int| #[trigger] r.spec_phy_reg(i) == 0,
    {
        let mut mem: Vec<u32> = Vec::new();
        while mem.len() < SIM_REG_WORDS
            invariant
                mem@.len() <= SIM_REG_WORDS,
                forall|j: int| 0 <= j < mem@.len() ==> mem@[j] == 0,
            decreases SIM_REG_WORDS - mem@.len(),
        {
            mem.push(0);
        }
        let mut phy: Vec<u16> = Vec::new();
        while phy.len() < SIM_PHY_REGS
            invariant
                phy@.len() <= SIM_PHY_REGS,
                forall|j: int| 0 <= j < phy@.len() ==> phy@[j] == 0,
            decreases SIM_PHY_REGS - phy@.len(),
        {
            phy.push(0);
        }
        SimBus { mem, phy, rst_countdown, mdic_fail: false, read_ops: Ghost(0) }
    }

    /// Observe a register without stepping the device.
    pub fn peek(&self, off: u32) -> (r: u32)
        requires
            crate::regs::reg_offset_ok(off),
        ensures
            r == self.reg_val(off),
    {
        proof {
            use_type_invariant(&*self);
        }
        let idx = (off / 4) as usize;
        self.mem[idx]
    }

    /// Store a register value directly, without stepping the device: test
    /// set-up for registers the hardware authors.
    pub fn poke(&mut self, off: u32, val: u32)
        requires
            crate::regs::reg_offset_ok(off),
        ensures
            final(self).reg_val(off) == val,
            forall|o: u32|
                o != off ==> #[trigger] final(self).reg_val(o) == old(self).reg_val(o),
            final(self).reads() == old(self).reads(),
            final(self).spec_rst_countdown() == old(self).spec_rst_countdown(),
            final(self).spec_mdic_fail() == old(self).spec_mdic_fail(),
            forall|i: int| #[trigger] final(self).spec_phy_reg(i) == old(self).spec_phy_reg(i),
    {
        proof {
            use_type_invariant(&*self);
        }
        let idx = (off / 4) as usize;
        self.mem[idx] = val;
    }

    /// Reads of the control register left before an asserted global-reset
    /// bit self-clears.
    pub fn rst_countdown(&self) -> (r: u32)
        ensures
            r == self.spec_rst_countdown(),
    {
        self.rst_countdown
    }

    /// Make every following MDIO request complete with the error bit.
    pub fn set_mdic_fail(&mut self, fail: bool)
        ensures
            final(self).spec_mdic_fail() == fail,
            forall|o: u32| #[trigger] final(self).reg_val(o) == old(self).reg_val(o),
            final(self).reads() == old(self).reads(),
            final(self).spec_rst_countdown() == old(self).spec_rst_countdown(),
            forall|i: int| #[trigger] final(self).spec_phy_reg(i) == old(self).spec_phy_reg(i),
    {
        proof {
            use_type_invariant(&*self);
        }
        self.mdic_fail = fail;
    }

    /// Set a simulated PHY register: test set-up for advertisement and
    /// partner-ability bits.
    pub fn set_phy_reg(&mut self, i: usize, val: u16)
        requires
            i < SIM_PHY_REGS,
        ensures
            final(self).spec_phy_reg(i as int) == val,
            forall|j: int|
                j != i as int ==> #[trigger] final(self).spec_phy_reg(j) == old(
                    self,
                ).spec_phy_reg(j),
            forall|o: u32| #[trigger] final(self).reg_val(o) == old(self).reg_val(o),
            final(self).reads() == old(self).reads(),
            final(self).spec_rst_countdown() == old(self).spec_rst_countdown(),
            final(self).spec_mdic_fail() == old(self).spec_mdic_fail(),
    {
        proof {
            use_type_invariant(&*self);
        }
        self.phy[i] = val;
    }

    /// Observe a simulated PHY register.
    pub fn phy_reg(&self, i: usize) -> (r: u16)
        requires
            i < SIM_PHY_REGS,
        ensures
            r == self.spec_phy_reg(i as int),
    {
        proof {
            use_type_invariant(&*self);
        }
        self.phy[i]
    }
}

impl RegisterBus for SimBus {
    closed spec fn reg_val(&self, off: u32) -> u32 {
        if off % 4 == 0 && (off as int) / 4 < self.mem@.len() {
            self.mem@[(off as int) / 4]
        } else {
            0
        }
    }

    closed spec fn reads(&self) -> nat {
        self.read_ops@
    }

    open spec fn read_sensitive(off: u32) -> bool {
        off == 0x00000 || off == 0x00020
    }

    fn read_32(&mut self, off: u32) -> (r: u32)
        ensures
            // registers without a read behaviour read back what they hold
            off != 0x00000 && off != 0x00020 ==> r == old(self).reg_val(off),
            // the reset countdown is spent one control-register read at a
            // time, and only while the reset bit is asserted
            final(self).spec_rst_countdown() == if off == 0x00000 && old(self).reg_val(0x00000)
                & CTRL_RST != 0 && old(self).spec_rst_countdown() > 0 {
                (old(self).spec_rst_countdown() - 1) as u32
            } else {
                old(self).spec_rst_countdown()
            },
            // the control register keeps the reset bit until the countdown
            // is spent, then hands it back cleared
            off == 0x00000 ==> r == if old(self).reg_val(0x00000) & CTRL_RST != 0 && old(
                self,
            ).spec_rst_countdown() == 0 {
                old(self).reg_val(0x00000) & !CTRL_RST
            } else {
                old(self).reg_val(0x00000)
            },
            // a latched MDIO request completes on this read
            off == 0x00020 ==> r == spec_mdic_step(
                old(self).reg_val(0x00020),
                old(self).spec_mdic_fail(),
                old(self).spec_phy_reg(spec_mdic_regadd(old(self).reg_val(0x00020))),
            ),
            // the PHY bank changes only when a write request completes
            forall|i: int|
                #![trigger final(self).spec_phy_reg(i)]
                !(off == 0x00020 && spec_mdic_write_completes(
                    old(self).reg_val(0x00020),
                    old(self).spec_mdic_fail(),
                ) && i == spec_mdic_regadd(old(self).reg_val(0x00020)))
                    ==> final(self).spec_phy_reg(i) == old(self).spec_phy_reg(i),
            off == 0x00020 && spec_mdic_write_completes(
                old(self).reg_val(0x00020),
                old(self).spec_mdic_fail(),
            ) ==> final(self).spec_phy_reg(spec_mdic_regadd(old(self).reg_val(0x00020)))
                == (old(self).reg_val(0x00020) & MDIC_DATA) as u16,
            final(self).spec_mdic_fail() == old(self).spec_mdic_fail(),
    {
        proof {
            use_type_invariant(&*self);
        }
        let idx = (off / 4) as usize;
        if off == 0x00000 {
            // An asserted global reset self-clears once its countdown of
            // control-register reads is spent.
            let cur = self.mem[idx];
            if cur & CTRL_RST != 0 {
                if self.rst_countdown > 0 {
                    self.rst_countdown = self.rst_countdown - 1;
                } else {
                    self.mem[idx] = cur & !CTRL_RST;
                }
            }
        } else if off == 0x00020 {
            // A latched MDIO request completes on the next read of the MDI
            // control register: ready plus data on a read, ready alone on a
            // write, or the error bit when failure is injected.
            let cur = self.mem[idx];
            if cur & (MDIC_OP_READ | MDIC_OP_WRITE) != 0 && cur & MDIC_READY == 0 && cur
                & MDIC_E == 0 {
                if self.mdic_fail {
                    self.mem[idx] = cur | MDIC_E;
                } else if cur & MDIC_OP_WRITE != 0 {
                    let phyreg = ((cur >> 16) & 0x1F) as usize;
                    assert(phyreg < SIM_PHY_REGS) by (bit_vector)
                        requires
                            phyreg == ((cur >> 16) & 0x1F) as usize,
                    ;
                    self.phy[phyreg] = (cur & MDIC_DATA) as u16;
                    self.mem[idx] = cur | MDIC_READY;
                } else {
                    let phyreg = ((cur >> 16) & 0x1F) as usize;
                    assert(phyreg < SIM_PHY_REGS) by (bit_vector)
                        requires
                            phyreg == ((cur >> 16) & 0x1F) as usize,
                    ;
                    let data = self.phy[phyreg] as u32;
                    self.mem[idx] = (cur & !MDIC_DATA) | data | MDIC_READY;
                }
            }
        }
        let r = self.mem[idx];
        proof {
            self.read_ops@ = self.read_ops@ + 1;
        }
        r
    }

    fn write_32(&mut self, off: u32, val: u32)
        ensures
            final(self).spec_rst_countdown() == old(self).spec_rst_countdown(),
            final(self).spec_mdic_fail() == old(self).spec_mdic_fail(),
            forall|i: int| #[trigger] final(self).spec_phy_reg(i) == old(self).spec_phy_reg(i),
    {
        proof {
            use_type_invariant(&*self);
        }
        let idx = (off / 4) as usize;
        self.mem[idx] = val;
    }

    fn sleep_ms(&mut self, _ms: u64) {
        // Simulated time: nothing passes between poll attempts.
    }
}

/// A bump allocator handing out bus addresses from a chosen base: the
/// simulated DMA capability, with addresses the caller controls.
pub struct SimDma {
    /// The next bus address to hand out (before alignment).
    next: u64,
}

impl SimDma {
    /// The next bus address to hand out (before alignment).
    pub closed spec fn spec_next(&self) -> u64 {
        self.next
    }

    /// A simulated allocator whose first region starts at `base` (once
    /// aligned).
    pub fn new(base: u64) -> (r: Self)
        ensures
            r.spec_next() == base,
    {
        SimDma { next: base }
    }
}

impl DmaAllocator for SimDma {
    open spec fn spec_next_region(&self, byte_len: usize, align: usize) -> Option<DmaRegion> {
        let start = spec_align_up(self.spec_next() as int, align as int);
        if 0 < align && start + byte_len <= u64::MAX {
            Some(DmaRegion { bus_addr: start as u64, len: byte_len })
        } else {
            None
        }
    }

    fn allocate(&mut self, byte_len: usize, align: usize, _direction: DmaDirection) -> (r: Option<
        DmaRegion,
    >)
        ensures
            r matches Some(region) ==> {
                &&& region.bus_addr == spec_align_up(
                    old(self).spec_next() as int,
                    align as int,
                )
                &&& final(self).spec_next() == region.bus_addr + byte_len
            },
            r is None ==> *final(self) == *old(self),
    {
        let a = align as u64;
        let rem = self.next % a;
        let pad = if rem == 0 {
            0
        } else {
            a - rem
        };
        if self.next > u64::MAX - pad {
            return None;
        }
        let start = self.next + pad;
        if byte_len as u64 > u64::MAX - start {
            return None;
        }
        proof {
            if rem != 0 {
                let n = self.next as int;
                let al = a as int;
                assert((n + (al - n % al)) % al == 0) by (nonlinear_arith)
                    requires
                        al > 0,
                        n >= 0,
                        n % al != 0,
                ;
            }
        }
        self.next = start + byte_len as u64;
        Some(DmaRegion { bus_addr: start, len: byte_len })
    }
}

} // verus!
