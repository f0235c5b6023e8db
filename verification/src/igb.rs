//! The device: reset, PHY and link bring-up, ring programming, enable.
//!
//! `open` runs the bring-up sequence: disable interrupts, global reset,
//! wait for the reset to self-clear (bounded, one second ceiling),
//! disable interrupts again (a reset re-arms them), mark the driver
//! loaded, bring up the PHY and flow control, program and enable the
//! receive and transmit rings, and force the link mode. Its contract
//! pins the control registers the sequence leaves behind: receive
//! enabled at the 256-byte global buffer size, transmit enabled, and
//! the device control register carrying link-up, full duplex and the
//! gigabit speed.

use vstd::prelude::*;

use crate::descriptor::{AdvRxDesc, AdvTxDesc, Descriptor};
use crate::dma::DmaAllocator;
use crate::phy::{IgbFlowControlType, Phy};
use crate::regs::{
    mac_bytes, reg_frame, reg_frame2, spec_ral, spec_rah, spec_rdbal, spec_rdbah, spec_rdlen,
    spec_rxdctl, spec_srrctl, spec_txdctl, FlagReg, Reg, RegisterBus, CTRL, CTRL_EXT,
    CTRL_EXT_DRV_LOAD, CTRL_EXT_LINK_MODE_DIRECT_COPPER, CTRL_FD, CTRL_RFCE, CTRL_RST, CTRL_SLU,
    CTRL_SPD_1000, CTRL_TFCE, EICR, EIMC, EIMS, MDIC, RCTL, RCTL_RXEN, RCTL_SZ_256, RCTL_VFE,
    RXDCTL_ENABLE, STATUS, STATUS_FD, STATUS_LU, STATUS_PHYRA, TCTL, TCTL_EN, TXDCTL_ENABLE,
};
use crate::ring::{Ring, DEFAULT_RING_SIZE, DESCRIPTOR_BYTES};
use crate::IgbError;

verus! {

/// How the MAC reaches its link partner.
pub enum LinkMode {
    /// Internal PHY over copper: the one path this core brings up.
    DirectCopper,
    /// SGMII link mode: an unfinished bring-up path.
    SGMMII,
    /// Internal SerDes link mode: an unfinished bring-up path.
    InternalSerDesInterface,
}

/// The device: the register port, the DMA allocator, one ring per
/// direction, and the PHY controller.
pub struct Igb<B: RegisterBus, A: DmaAllocator> {
    reg: Reg<B>,
    alloc: A,
    tx_ring: Ring<AdvTxDesc>,
    rx_ring: Ring<AdvRxDesc>,
    phy: Phy,
}

impl<B: RegisterBus, A: DmaAllocator> Igb<B, A> {
    /// Both rings are programmed into queue zero's registers: the queue
    /// index is fixed at construction and never changes.
    pub closed spec fn wf(&self) -> bool {
        &&& self.rx_ring.spec_reg_idx() == 0
        &&& self.tx_ring.spec_reg_idx() == 0
    }

    /// The register bus, as the contracts speak of it.
    pub closed spec fn spec_bus(&self) -> B {
        self.reg.bus
    }

    /// The receive ring, as the contracts speak of it.
    pub closed spec fn spec_rx_ring(&self) -> Ring<AdvRxDesc> {
        self.rx_ring
    }

    /// The transmit ring, as the contracts speak of it.
    pub closed spec fn spec_tx_ring(&self) -> Ring<AdvTxDesc> {
        self.tx_ring
    }

    /// The PHY controller, as the contracts speak of it.
    pub closed spec fn spec_phy(&self) -> Phy {
        self.phy
    }

    /// The register bus, for observing a simulated device from outside.
    pub fn bus(&self) -> (r: &B)
        ensures
            *r == self.spec_bus(),
    {
        &self.reg.bus
    }

    /// Construct the device over a register bus and a DMA allocator:
    /// wrap the bus in the typed port and allocate both descriptor
    /// rings at the fixed default depth. No register is touched.
    pub fn new(bus: B, alloc: A) -> (r: Result<Self, IgbError>)
        ensures
            r matches Ok(d) ==> {
                &&& d.wf()
                &&& d.spec_bus() == bus
                &&& d.spec_phy().spec_addr() == 1
                &&& d.spec_rx_ring().spec_count() == DEFAULT_RING_SIZE
                &&& d.spec_tx_ring().spec_count() == DEFAULT_RING_SIZE
                &&& d.spec_rx_ring().spec_descriptors().len == DEFAULT_RING_SIZE
                    * DESCRIPTOR_BYTES
                &&& d.spec_tx_ring().spec_descriptors().len == DEFAULT_RING_SIZE
                    * DESCRIPTOR_BYTES
                &&& d.spec_rx_ring().spec_descriptors().bus_addr as int % 4096 == 0
                &&& d.spec_tx_ring().spec_descriptors().bus_addr as int % 4096 == 0
            },
            r matches Err(e) ==> e == IgbError::NoMemory,
    {
        let reg = Reg::new(bus);
        let mut alloc = alloc;
        let tx_ring = match Ring::new(&mut alloc, DEFAULT_RING_SIZE) {
            Ok(t) => t,
            Err(e) => {
                return Err(e);
            },
        };
        let rx_ring = match Ring::new(&mut alloc, DEFAULT_RING_SIZE) {
            Ok(t) => t,
            Err(e) => {
                return Err(e);
            },
        };

        Ok(Igb { reg, alloc, tx_ring, rx_ring, phy: Phy::new() })
    }

    /// Bring the device up.
    ///
    /// On success the receiver is enabled at the 256-byte global buffer
    /// size, the transmitter and both descriptor queues are enabled, and
    /// the device control register carries link-up, full duplex and the
    /// gigabit speed. Whether the sequence succeeds is the hardware's to
    /// decide: each error names the step that failed — the reset wait
    /// can time out after its thousand attempts, ring buffer allocation
    /// can fail, and an indirect PHY access can fail.
    pub fn open(&mut self) -> (r: Result<(), IgbError>)
        requires
            old(self).wf(),
        ensures
            final(self).wf(),
            r matches Ok(()) ==> {
                let b = final(self).spec_bus();
                &&& b.reg_val(CTRL::spec_offset()) == CTRL_SLU | CTRL_FD | CTRL_SPD_1000
                &&& b.reg_val(RCTL::spec_offset()) == RCTL_RXEN | RCTL_SZ_256
                &&& b.reg_val(TCTL::spec_offset()) == TCTL_EN
                &&& b.reg_val(spec_rxdctl(0)) & RXDCTL_ENABLE != 0
                &&& b.reg_val(spec_txdctl(0)) & TXDCTL_ENABLE != 0
            },
            r matches Err(e) ==> {
                ||| e == IgbError::Timeout
                ||| e == IgbError::NoMemory
                ||| e == IgbError::PhyAccessError
                ||| e == IgbError::UnknownBufferSize
            },
            // whatever happened, only the bring-up registers were touched
            forall|o: u32|
                !spec_open_touches(o) ==> #[trigger] final(self).spec_bus().reg_val(o) == old(
                    self,
                ).spec_bus().reg_val(o),
            // a PHY access fails before any ring or enable programming:
            // the receive/transmit controls and queue zero's registers are
            // exactly as they were
            r matches Err(e) && e == IgbError::PhyAccessError ==> {
                let b = final(self).spec_bus();
                let pre = old(self).spec_bus();
                &&& b.reg_val(RCTL::spec_offset()) == pre.reg_val(RCTL::spec_offset())
                &&& b.reg_val(TCTL::spec_offset()) == pre.reg_val(TCTL::spec_offset())
                &&& b.reg_val(spec_rdbal(0)) == pre.reg_val(spec_rdbal(0))
                &&& b.reg_val(spec_rdbah(0)) == pre.reg_val(spec_rdbah(0))
                &&& b.reg_val(spec_rdlen(0)) == pre.reg_val(spec_rdlen(0))
                &&& b.reg_val(spec_rxdctl(0)) == pre.reg_val(spec_rxdctl(0))
                &&& b.reg_val(spec_txdctl(0)) == pre.reg_val(spec_txdctl(0))
            },
            // on any failure the sequence stopped before its last enables:
            // the transmit control is as it was or still cleared, and — for
            // a port whose receive-control reads are stable — the pair of
            // controls names the step that failed
            r is Err ==> final(self).spec_bus().reg_val(TCTL::spec_offset()) == old(
                self,
            ).spec_bus().reg_val(TCTL::spec_offset()) || final(self).spec_bus().reg_val(
                TCTL::spec_offset(),
            ) == 0,
            r is Err && !B::read_sensitive(RCTL::spec_offset()) ==> {
                let b = final(self).spec_bus();
                let pre = old(self).spec_bus();
                ||| {
                    &&& b.reg_val(RCTL::spec_offset()) == pre.reg_val(RCTL::spec_offset())
                    &&& b.reg_val(TCTL::spec_offset()) == pre.reg_val(TCTL::spec_offset())
                }
                ||| {
                    &&& b.reg_val(RCTL::spec_offset()) == 0
                    &&& b.reg_val(TCTL::spec_offset()) == pre.reg_val(TCTL::spec_offset())
                }
                ||| {
                    &&& b.reg_val(RCTL::spec_offset()) == RCTL_RXEN | RCTL_SZ_256
                    &&& b.reg_val(TCTL::spec_offset()) == 0
                }
            },
    {
        self.reg.disable_interrupts();

        self.reg.write_reg(CTRL { bits: CTRL_RST });

        let reset_cleared = |c: CTRL| -> (b: bool)
            ensures
                b == (c.spec_bits() & CTRL_RST == 0),
            {
                c.bits & CTRL_RST == 0
            };
        let waited = self.reg.wait_for(reset_cleared, 1, Some(1000));
        match waited {
            Ok(()) => (),
            Err(e) => {
                return Err(e);
            },
        }
        self.reg.disable_interrupts();

        let mark_loaded = |c: CTRL_EXT| -> (d: CTRL_EXT)
            ensures
                d.spec_bits() == CTRL_EXT_DRV_LOAD | c.spec_bits(),
            {
                CTRL_EXT { bits: CTRL_EXT_DRV_LOAD | c.bits }
            };
        self.reg.modify_reg(mark_loaded);

        match self.setup_phy_and_the_link() {
            Ok(()) => (),
            Err(e) => {
                return Err(e);
            },
        }

        self.init_stat();

        match self.init_rx() {
            Ok(()) => (),
            Err(e) => {
                return Err(e);
            },
        }
        match self.init_tx() {
            Ok(()) => (),
            Err(e) => {
                return Err(e);
            },
        }

        self.enable_interrupts();

        self.reg.write_reg(CTRL { bits: CTRL_SLU | CTRL_FD | CTRL_SPD_1000 });
        Ok(())
    }

    /// Statistics counters are outside this core's scope.
    fn init_stat(&mut self)
        ensures
            *final(self) == *old(self),
    {
    }

    /// Receive initialization: clear receive control while configuring,
    /// zero the multicast table, program and enable the receive ring,
    /// then set receive control to enable at the 256-byte buffer size.
    ///
    /// The receive logic stays disabled until the descriptor ring is
    /// fully programmed.
    fn init_rx(&mut self) -> (r: Result<(), IgbError>)
        requires
            old(self).wf(),
        ensures
            final(self).wf(),
            final(self).tx_ring == old(self).tx_ring,
            final(self).phy == old(self).phy,
            forall|o: u32|
                {
                    &&& o != RCTL::spec_offset()
                    &&& !(0x05200 <= o < 0x05400)
                    &&& o != spec_rdbal(0)
                    &&& o != spec_rdbah(0)
                    &&& o != spec_rdlen(0)
                    &&& o != spec_srrctl(0)
                    &&& o != spec_rxdctl(0)
                } ==> #[trigger] final(self).reg.bus.reg_val(o) == old(self).reg.bus.reg_val(o),
            r matches Ok(()) ==> {
                &&& final(self).reg.bus.reg_val(RCTL::spec_offset()) == RCTL_RXEN | RCTL_SZ_256
                &&& final(self).reg.bus.reg_val(spec_rxdctl(0)) & RXDCTL_ENABLE != 0
            },
            // receive control is cleared first and set only on success: on
            // a failure it still reads cleared wherever reads leave it be
            r is Err && !B::read_sensitive(RCTL::spec_offset()) ==> final(self).reg.bus.reg_val(
                RCTL::spec_offset(),
            ) == 0,
            r matches Err(e) ==> e == IgbError::NoMemory || e == IgbError::Timeout || e
                == IgbError::UnknownBufferSize,
    {
        // disable rx while configuring
        self.reg.write_reg(RCTL { bits: 0 });

        // set up the multicast table array
        self.reg.setup_mta();

        match self.rx_ring.init(&mut self.reg, &mut self.alloc) {
            Ok(()) => (),
            Err(e) => {
                return Err(e);
            },
        }

        // The receive logic is enabled only after the descriptor ring is
        // initialized. VLANs are not used, so the filter stays off.
        self.reg.write_reg(RCTL { bits: RCTL_RXEN | RCTL_SZ_256 });
        Ok(())
    }

    /// Transmit initialization: clear transmit control, program and
    /// enable the transmit ring, then set transmit enable.
    fn init_tx(&mut self) -> (r: Result<(), IgbError>)
        requires
            old(self).wf(),
        ensures
            final(self).wf(),
            final(self).rx_ring == old(self).rx_ring,
            final(self).phy == old(self).phy,
            forall|o: u32|
                {
                    &&& o != TCTL::spec_offset()
                    &&& o != spec_rdbal(0)
                    &&& o != spec_rdbah(0)
                    &&& o != spec_rdlen(0)
                    &&& o != spec_txdctl(0)
                } ==> #[trigger] final(self).reg.bus.reg_val(o) == old(self).reg.bus.reg_val(o),
            r matches Ok(()) ==> {
                &&& final(self).reg.bus.reg_val(TCTL::spec_offset()) == TCTL_EN
                &&& final(self).reg.bus.reg_val(spec_txdctl(0)) & TXDCTL_ENABLE != 0
            },
            // transmit control is cleared first and set only on success
            r is Err ==> final(self).reg.bus.reg_val(TCTL::spec_offset()) == 0,
            r matches Err(e) ==> e == IgbError::NoMemory || e == IgbError::Timeout || e
                == IgbError::UnknownBufferSize,
    {
        self.reg.write_reg(TCTL { bits: 0 });

        match self.tx_ring.init(&mut self.reg, &mut self.alloc) {
            Ok(()) => (),
            Err(e) => {
                return Err(e);
            },
        }

        self.reg.write_reg(TCTL { bits: TCTL_EN });
        Ok(())
    }

    /// Select the link mode. Only direct copper is brought up; the
    /// SGMII and SerDes paths are unfinished and fail as such.
    fn set_link_mode(&mut self, mode: LinkMode) -> (r: Result<(), IgbError>)
        ensures
            final(self).rx_ring == old(self).rx_ring,
            final(self).tx_ring == old(self).tx_ring,
            final(self).phy == old(self).phy,
            reg_frame(old(self).reg.bus, final(self).reg.bus, CTRL_EXT::spec_offset()),
            mode is DirectCopper ==> r matches Ok(()),
            !(mode is DirectCopper) ==> r == Err::<(), IgbError>(IgbError::NotImplemented)
                && old(self).reg.bus == final(self).reg.bus,
    {
        match mode {
            LinkMode::DirectCopper => {
                let select_copper = |c: CTRL_EXT| -> (d: CTRL_EXT)
                    ensures
                        d.spec_bits() == CTRL_EXT_LINK_MODE_DIRECT_COPPER | c.spec_bits(),
                    {
                        CTRL_EXT { bits: CTRL_EXT_LINK_MODE_DIRECT_COPPER | c.bits }
                    };
                self.reg.modify_reg(select_copper);
                Ok(())
            },
            LinkMode::SGMMII => Err(IgbError::NotImplemented),
            LinkMode::InternalSerDesInterface => Err(IgbError::NotImplemented),
        }
    }

    /// Select the link mode, power the PHY up, resolve and program flow
    /// control.
    fn setup_phy_and_the_link(&mut self) -> (r: Result<(), IgbError>)
        ensures
            final(self).rx_ring == old(self).rx_ring,
            final(self).tx_ring == old(self).tx_ring,
            final(self).phy == old(self).phy,
            forall|o: u32|
                {
                    &&& o != CTRL_EXT::spec_offset()
                    &&& o != MDIC::spec_offset()
                    &&& o != CTRL::spec_offset()
                } ==> #[trigger] final(self).reg.bus.reg_val(o) == old(self).reg.bus.reg_val(o),
            r matches Err(e) ==> e == IgbError::PhyAccessError || e == IgbError::Timeout,
    {
        match self.set_link_mode(LinkMode::DirectCopper) {
            Ok(()) => (),
            Err(e) => {
                return Err(e);
            },
        }
        match self.phy.power_up(&mut self.reg) {
            Ok(()) => (),
            Err(e) => {
                return Err(e);
            },
        }
        match self.setup_flow_control_mode() {
            Ok(_) => Ok(()),
            Err(e) => Err(e),
        }
    }

    /// Derive the flow-control type from the PHY negotiation registers,
    /// program the receive/transmit flow-control enable bits accordingly,
    /// and hand the resolved type back.
    fn setup_flow_control_mode(&mut self) -> (r: Result<IgbFlowControlType, IgbError>)
        ensures
            final(self).rx_ring == old(self).rx_ring,
            final(self).tx_ring == old(self).tx_ring,
            final(self).phy == old(self).phy,
            reg_frame2(
                old(self).reg.bus,
                final(self).reg.bus,
                MDIC::spec_offset(),
                CTRL::spec_offset(),
            ),
            // the control register leaves with exactly the flow-control
            // enable bits the resolved type calls for
            r matches Ok(fc) ==> final(self).reg.bus.reg_val(CTRL::spec_offset()) & (CTRL_RFCE
                | CTRL_TFCE) == spec_fc_ctrl_bits(fc),
            r matches Err(e) ==> e == IgbError::PhyAccessError || e == IgbError::Timeout,
    {
        let fc_type = match self.phy.get_fc_type(&mut self.reg) {
            Ok(v) => v,
            Err(e) => {
                return Err(e);
            },
        };
        match fc_type {
            IgbFlowControlType::IgbFCNone => {
                let clear_both = |c: CTRL| -> (d: CTRL)
                    ensures
                        d.spec_bits() == c.spec_bits() & !(CTRL_RFCE | CTRL_TFCE),
                    {
                        CTRL { bits: c.bits & !(CTRL_RFCE | CTRL_TFCE) }
                    };
                self.reg.modify_reg(clear_both);
                proof {
                    let (x, y): (CTRL, CTRL) = choose|x: CTRL, y: CTRL|
                        call_ensures(clear_both, (x,), y) && self.reg.bus.reg_val(
                            CTRL::spec_offset(),
                        ) == y.spec_bits();
                    let a = x.spec_bits();
                    assert((a & !(CTRL_RFCE | CTRL_TFCE)) & (CTRL_RFCE | CTRL_TFCE) == 0)
                        by (bit_vector);
                }
            },
            IgbFlowControlType::IgbFCRxPause => {
                let transmit_pause = |c: CTRL| -> (d: CTRL)
                    ensures
                        d.spec_bits() == (c.spec_bits() & !CTRL_RFCE) | CTRL_TFCE,
                    {
                        CTRL { bits: (c.bits & !CTRL_RFCE) | CTRL_TFCE }
                    };
                self.reg.modify_reg(transmit_pause);
                proof {
                    let (x, y): (CTRL, CTRL) = choose|x: CTRL, y: CTRL|
                        call_ensures(transmit_pause, (x,), y) && self.reg.bus.reg_val(
                            CTRL::spec_offset(),
                        ) == y.spec_bits();
                    let a = x.spec_bits();
                    assert(((a & !CTRL_RFCE) | CTRL_TFCE) & (CTRL_RFCE | CTRL_TFCE) == CTRL_TFCE)
                        by (bit_vector);
                }
            },
            IgbFlowControlType::IgbFCTxPause => {
                let receive_pause = |c: CTRL| -> (d: CTRL)
                    ensures
                        d.spec_bits() == (c.spec_bits() & !CTRL_TFCE) | CTRL_RFCE,
                    {
                        CTRL { bits: (c.bits & !CTRL_TFCE) | CTRL_RFCE }
                    };
                self.reg.modify_reg(receive_pause);
                proof {
                    let (x, y): (CTRL, CTRL) = choose|x: CTRL, y: CTRL|
                        call_ensures(receive_pause, (x,), y) && self.reg.bus.reg_val(
                            CTRL::spec_offset(),
                        ) == y.spec_bits();
                    let a = x.spec_bits();
                    assert(((a & !CTRL_TFCE) | CTRL_RFCE) & (CTRL_RFCE | CTRL_TFCE) == CTRL_RFCE)
                        by (bit_vector);
                }
            },
            IgbFlowControlType::IgbFCFull => {
                let set_both = |c: CTRL| -> (d: CTRL)
                    ensures
                        d.spec_bits() == c.spec_bits() | (CTRL_RFCE | CTRL_TFCE),
                    {
                        CTRL { bits: c.bits | (CTRL_RFCE | CTRL_TFCE) }
                    };
                self.reg.modify_reg(set_both);
                proof {
                    let (x, y): (CTRL, CTRL) = choose|x: CTRL, y: CTRL|
                        call_ensures(set_both, (x,), y) && self.reg.bus.reg_val(
                            CTRL::spec_offset(),
                        ) == y.spec_bits();
                    let a = x.spec_bits();
                    assert((a | (CTRL_RFCE | CTRL_TFCE)) & (CTRL_RFCE | CTRL_TFCE) == (CTRL_RFCE
                        | CTRL_TFCE)) by (bit_vector);
                }
            },
        }
        Ok(fc_type)
    }

    /// Enable the VLAN filter. Filter-table programming is outside this
    /// core's scope.
    #[allow(dead_code)]
    fn setup_vlan(&mut self)
        ensures
            final(self).reg.bus.reg_val(RCTL::spec_offset()) == RCTL_VFE,
            reg_frame(old(self).reg.bus, final(self).reg.bus, RCTL::spec_offset()),
    {
        self.reg.write_reg(RCTL { bits: RCTL_VFE });
    }

    /// The station address, assembled from the first receive-address
    /// register pair in low-to-high byte order.
    pub fn mac(&mut self) -> (r: [u8; 6])
        ensures
            reg_frame2(old(self).spec_bus(), final(self).spec_bus(), spec_ral(0), spec_rah(0)),
            r@ == mac_bytes(
                final(self).spec_bus().reg_val(spec_ral(0)),
                final(self).spec_bus().reg_val(spec_rah(0)),
            ),
    {
        self.reg.read_mac()
    }

    /// Interrupt-driven operation is outside this core's scope: the core
    /// is polled, and sources stay masked.
    fn enable_interrupts(&self) {
    }

    /// A read-only snapshot of the status register: link up, duplex,
    /// speed and PHY-reset-asserted, computed fresh from this one read.
    pub fn status(&mut self) -> (r: IgbStatus)
        ensures
            reg_frame(old(self).spec_bus(), final(self).spec_bus(), STATUS::spec_offset()),
            ({
                let v = final(self).spec_bus().reg_val(STATUS::spec_offset());
                &&& r.link_up == (v & STATUS_LU != 0)
                &&& r.full_duplex == (v & STATUS_FD != 0)
                &&& r.phy_reset_asserted == (v & STATUS_PHYRA != 0)
                &&& r.speed == spec_speed_decode(v)
            }),
    {
        let raw = self.reg.read_reg::<STATUS>();
        let speed_raw = (raw.bits >> 6) & 0b11;

        IgbStatus {
            link_up: raw.bits & STATUS_LU != 0,
            speed: if speed_raw == 0 {
                Speed::Mb10
            } else if speed_raw == 1 {
                Speed::Mb100
            } else {
                Speed::Mb1000
            },
            full_duplex: raw.bits & STATUS_FD != 0,
            phy_reset_asserted: raw.bits & STATUS_PHYRA != 0,
        }
    }
}

/// The registers the bring-up sequence touches: interrupt masking and
/// cause, device control and its extension, the MDI control register, the
/// receive and transmit controls, the multicast table array, and queue
/// zero's ring and control registers. `open` leaves every other register
/// as it found it.
pub open spec fn spec_open_touches(o: u32) -> bool {
    ||| o == EIMS
    ||| o == EIMC
    ||| o == EICR
    ||| o == CTRL::spec_offset()
    ||| o == CTRL_EXT::spec_offset()
    ||| o == MDIC::spec_offset()
    ||| o == RCTL::spec_offset()
    ||| (0x05200 <= o < 0x05400)
    ||| o == spec_rdbal(0)
    ||| o == spec_rdbah(0)
    ||| o == spec_rdlen(0)
    ||| o == spec_srrctl(0)
    ||| o == spec_rxdctl(0)
    ||| o == TCTL::spec_offset()
    ||| o == spec_txdctl(0)
}

/// The receive/transmit flow-control enable bits that programming a
/// resolved flow-control type leaves in the device control register.
pub open spec fn spec_fc_ctrl_bits(fc: IgbFlowControlType) -> u32 {
    match fc {
        IgbFlowControlType::IgbFCNone => 0,
        IgbFlowControlType::IgbFCRxPause => CTRL_TFCE,
        IgbFlowControlType::IgbFCTxPause => CTRL_RFCE,
        IgbFlowControlType::IgbFCFull => CTRL_RFCE | CTRL_TFCE,
    }
}

/// The speed the status register's two-bit field names.
pub open spec fn spec_speed_decode(v: u32) -> Speed {
    let s = (v >> 6) & 0b11;
    if s == 0 {
        Speed::Mb10
    } else if s == 1 {
        Speed::Mb100
    } else {
        Speed::Mb1000
    }
}

/// A snapshot of the link as the status register reported it.
#[derive(Debug, Clone)]
pub struct IgbStatus {
    /// Full duplex, as negotiated or forced.
    pub full_duplex: bool,
    /// Whether the link is up.
    pub link_up: bool,
    /// The negotiated or forced speed.
    pub speed: Speed,
    /// Whether a PHY reset is asserted.
    pub phy_reset_asserted: bool,
}

/// Link speed.
#[derive(Debug, Clone, Copy, PartialEq, Eq, PartialOrd, Ord)]
pub enum Speed {
    /// Ten megabit.
    Mb10,
    /// Hundred megabit.
    Mb100,
    /// Gigabit.
    Mb1000,
}

} // verus!
