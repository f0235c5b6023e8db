//! PHY management: the MDIO indirect-access protocol, power-up, the
//! flow-control resolution table, and the two-tier software/firmware
//! arbitration guards.
//!
//! Every indirect PHY access is encoded into the MDI control register and
//! polled until the device reports ready (success) or error. Flow control
//! is derived once from the local advertisement and the partner's
//! base-page ability through the IEEE 802.3ab pause-resolution table,
//! which `spec_fc_resolution` states row by row and `resolve_fc_type` is
//! proved to match on every input.

use vstd::prelude::*;

use crate::regs::{
    reg_frame, reg_frame2, FlagReg, Reg, RegisterBus, MDIC, MDIC_DATA, MDIC_E, MDIC_OP_READ,
    MDIC_OP_WRITE, MDIC_READY, SWSM, SWSM_SMBI, SWSM_SWESMBI, SwFwSync,
};
use crate::IgbError;

verus! {

/// PHY control register index.
pub const PHY_CONTROL: u32 = 0;

/// PHY auto-negotiation advertisement register index.
pub const PHY_AUTO_NEGOTIATION_ADVERTISEMENT: u32 = 4;

/// PHY auto-negotiation base-page-ability register index.
pub const PHY_AUTO_NEGOTIATION_BASE_PAGE_ABILITY: u32 = 5;

/// PAUSE bit of the advertisement and base-page-ability registers.
pub const PHY_PAUSE_BIT: u16 = 0x0400;

/// ASM_DIR bit of the advertisement and base-page-ability registers.
pub const PHY_ASM_DIR_BIT: u16 = 0x0800;

/// PHY control: power down.
pub const MII_CR_POWER_DOWN: u16 = 0x0800;

/// PHY control: auto-negotiation enable.
pub const MII_CR_AUTO_NEG_EN: u16 = 0x1000;

/// PHY control: restart auto-negotiation.
pub const MII_CR_RESTART_AUTO_NEG: u16 = 0x0200;

/// How the device and its link partner agreed to use pause frames.
#[derive(Debug, Clone, Copy, PartialEq, Eq, Structural)]
pub enum IgbFlowControlType {
    /// No pause frames in either direction.
    IgbFCNone,
    /// This device may send pause frames, not honour received ones.
    IgbFCTxPause,
    /// This device honours received pause frames, does not send them.
    IgbFCRxPause,
    /// Pause frames flow in both directions.
    IgbFCFull,
}

/// Whether the PAUSE bit is set in an advertisement-format register value.
pub open spec fn spec_pause_bit(v: u16) -> bool {
    v & PHY_PAUSE_BIT != 0
}

/// Whether the ASM_DIR bit is set in an advertisement-format register
/// value.
pub open spec fn spec_asm_dir_bit(v: u16) -> bool {
    v & PHY_ASM_DIR_BIT != 0
}

/// The IEEE 802.3ab pause-resolution table over the four PAUSE/ASM_DIR
/// bits of the local device and the link partner.
///
/// Both PAUSE bits set means symmetric flow control regardless of the
/// ASM_DIR bits, so that row is decided first. Asymmetric rows:
/// local (0,1) with partner (1,1) resolves to transmit-pause, local (1,1)
/// with partner (0,1) to receive-pause; every other combination resolves
/// to none. The rows are exhaustive.
pub open spec fn spec_fc_resolution(
    local_pause: bool,
    local_asm_dir: bool,
    partner_pause: bool,
    partner_asm_dir: bool,
) -> IgbFlowControlType {
    if local_pause && partner_pause {
        IgbFlowControlType::IgbFCFull
    } else if !local_pause && local_asm_dir && partner_pause && partner_asm_dir {
        IgbFlowControlType::IgbFCTxPause
    } else if local_pause && local_asm_dir && !partner_pause && partner_asm_dir {
        IgbFlowControlType::IgbFCRxPause
    } else {
        IgbFlowControlType::IgbFCNone
    }
}

/// Resolve flow control from the local advertisement register value and
/// the partner's base-page-ability register value.
///
/// Returns the pause-resolution table's answer on every input: the
/// chain's rows are exhaustive, so the gap error is proved unreachable.
pub fn resolve_fc_type(ana: u16, anbpa: u16) -> (r: Result<IgbFlowControlType, IgbError>)
    ensures
        r == Ok::<IgbFlowControlType, IgbError>(
            spec_fc_resolution(
                spec_pause_bit(ana),
                spec_asm_dir_bit(ana),
                spec_pause_bit(anbpa),
                spec_asm_dir_bit(anbpa),
            ),
        ),
{
    if !ana.check_bit(PHY_PAUSE_BIT) && !ana.check_bit(PHY_ASM_DIR_BIT) {
        Ok(IgbFlowControlType::IgbFCNone)
    } else if !ana.check_bit(PHY_PAUSE_BIT) && ana.check_bit(PHY_ASM_DIR_BIT)
        && !anbpa.check_bit(PHY_PAUSE_BIT) {
        Ok(IgbFlowControlType::IgbFCNone)
    } else if !ana.check_bit(PHY_PAUSE_BIT) && ana.check_bit(PHY_ASM_DIR_BIT) && anbpa.check_bit(
        PHY_PAUSE_BIT,
    ) && !anbpa.check_bit(PHY_ASM_DIR_BIT) {
        Ok(IgbFlowControlType::IgbFCNone)
    } else if !ana.check_bit(PHY_PAUSE_BIT) && ana.check_bit(PHY_ASM_DIR_BIT) && anbpa.check_bit(
        PHY_PAUSE_BIT,
    ) && anbpa.check_bit(PHY_ASM_DIR_BIT) {
        Ok(IgbFlowControlType::IgbFCTxPause)
    } else if ana.check_bit(PHY_PAUSE_BIT) && !ana.check_bit(PHY_ASM_DIR_BIT)
        && !anbpa.check_bit(PHY_PAUSE_BIT) {
        Ok(IgbFlowControlType::IgbFCNone)
    } else if ana.check_bit(PHY_PAUSE_BIT) && anbpa.check_bit(PHY_PAUSE_BIT) {
        Ok(IgbFlowControlType::IgbFCFull)
    } else if ana.check_bit(PHY_PAUSE_BIT) && ana.check_bit(PHY_ASM_DIR_BIT) && !anbpa.check_bit(
        PHY_PAUSE_BIT,
    ) && !anbpa.check_bit(PHY_ASM_DIR_BIT) {
        Ok(IgbFlowControlType::IgbFCNone)
    } else if ana.check_bit(PHY_PAUSE_BIT) && ana.check_bit(PHY_ASM_DIR_BIT) && !anbpa.check_bit(
        PHY_PAUSE_BIT,
    ) && anbpa.check_bit(PHY_ASM_DIR_BIT) {
        Ok(IgbFlowControlType::IgbFCRxPause)
    } else {
        Err(IgbError::UnresolvedFlowControl)
    }
}

/// Testing one bit of a 16-bit PHY register value.
trait CheckBit {
    /// Whether any bit of `mask` is set in `self`.
    fn check_bit(&self, mask: u16) -> bool;
}

impl CheckBit for u16 {
    fn check_bit(&self, mask: u16) -> (r: bool)
        ensures
            r == (*self & mask != 0),
    {
        (*self & mask) != 0
    }
}

/// The PHY controller: all indirect PHY access goes through it.
pub struct Phy {
    /// The PHY's address on the MDIO bus, a 5-bit field.
    addr: u32,
}

impl Phy {
    #[verifier::type_invariant]
    spec fn wf(&self) -> bool {
        self.addr < 32
    }

    /// The PHY's address on the MDIO bus.
    pub closed spec fn spec_addr(&self) -> u32 {
        self.addr
    }

    /// The controller for the PHY at the family's fixed MDIO address.
    pub fn new() -> (r: Self)
        ensures
            r.spec_addr() == 1,
    {
        Phy { addr: 1 }
    }

    /// Read PHY register `offset` through the MDI control register:
    /// encode the request, poll until ready or error, extract the data.
    ///
    /// On success the extracted data is the low half of the MDI control
    /// register as the poll left it, with the ready bit observed set; the
    /// error answer comes if and only if the device raised the error bit
    /// before ready. The poll re-reads without bound in practice; the
    /// timeout answer exists only because the attempt counter is finite.
    pub fn read_mdic<B: RegisterBus>(&self, reg: &mut Reg<B>, offset: u32) -> (r: Result<
        u16,
        IgbError,
    >)
        requires
            offset < 32,
        ensures
            reg_frame(old(reg).bus, final(reg).bus, MDIC::spec_offset()),
            r matches Ok(d) ==> {
                &&& final(reg).bus.reg_val(MDIC::spec_offset()) & MDIC_READY != 0
                &&& d == final(reg).bus.reg_val(MDIC::spec_offset()) as u16
            },
            r matches Err(e) ==> {
                ||| {
                    &&& e == IgbError::PhyAccessError
                    &&& final(reg).bus.reg_val(MDIC::spec_offset()) & MDIC_E != 0
                    &&& final(reg).bus.reg_val(MDIC::spec_offset()) & MDIC_READY == 0
                }
                ||| e == IgbError::Timeout
            },
    {
        proof {
            use_type_invariant(&*self);
        }
        let cmd = mdic_read_request(offset, self.addr);
        reg.write_reg(MDIC { bits: cmd });

        let mut i: usize = 0;
        while i < usize::MAX
            invariant
                reg_frame(old(reg).bus, reg.bus, MDIC::spec_offset()),
            decreases usize::MAX - i,
        {
            let mdic = reg.read_reg::<MDIC>();
            if mdic.bits & MDIC_READY != 0 {
                return Ok(mdic.bits as u16);
            }
            if mdic.bits & MDIC_E != 0 {
                return Err(IgbError::PhyAccessError);
            }
            i = i + 1;
        }
        Err(IgbError::Timeout)
    }

    /// Write `data` to PHY register `offset` through the MDI control
    /// register: encode the request, poll until ready or error.
    ///
    /// Success means the ready bit was observed; the error answer comes if
    /// and only if the device raised the error bit before ready. The poll
    /// re-reads without bound in practice; the timeout answer exists only
    /// because the attempt counter is finite.
    pub fn write_mdic<B: RegisterBus>(&self, reg: &mut Reg<B>, offset: u32, data: u16) -> (r:
        Result<(), IgbError>)
        requires
            offset < 32,
        ensures
            reg_frame(old(reg).bus, final(reg).bus, MDIC::spec_offset()),
            r matches Ok(()) ==> final(reg).bus.reg_val(MDIC::spec_offset()) & MDIC_READY != 0,
            r matches Err(e) ==> {
                ||| {
                    &&& e == IgbError::PhyAccessError
                    &&& final(reg).bus.reg_val(MDIC::spec_offset()) & MDIC_E != 0
                    &&& final(reg).bus.reg_val(MDIC::spec_offset()) & MDIC_READY == 0
                }
                ||| e == IgbError::Timeout
            },
    {
        proof {
            use_type_invariant(&*self);
        }
        let cmd = mdic_write_request(offset, self.addr, data);
        reg.write_reg(MDIC { bits: cmd });

        let mut i: usize = 0;
        while i < usize::MAX
            invariant
                reg_frame(old(reg).bus, reg.bus, MDIC::spec_offset()),
            decreases usize::MAX - i,
        {
            let mdic = reg.read_reg::<MDIC>();
            if mdic.bits & MDIC_READY != 0 {
                return Ok(());
            }
            if mdic.bits & MDIC_E != 0 {
                return Err(IgbError::PhyAccessError);
            }
            i = i + 1;
        }
        Err(IgbError::Timeout)
    }

    /// Acquire the two-tier software/firmware guard for the resource bits
    /// in `mask`.
    pub fn aquire_sync<B: RegisterBus>(&self, reg: &mut Reg<B>, mask: u16) -> (r: Result<
        Synced,
        IgbError,
    >)
        ensures
            reg_frame2(
                old(reg).bus,
                final(reg).bus,
                SWSM::spec_offset(),
                SwFwSync::spec_offset(),
            ),
            r matches Ok(s) ==> {
                &&& s.spec_mask() == mask
                &&& final(reg).bus.reg_val(SwFwSync::spec_offset()) & (mask as u32) == mask as u32
                &&& final(reg).bus.reg_val(SwFwSync::spec_offset()) & ((mask as u32) << 16) == 0
                &&& final(reg).bus.reg_val(SWSM::spec_offset()) & (SWSM_SMBI | SWSM_SWESMBI) == 0
            },
            r matches Err(e) ==> e == IgbError::Timeout,
    {
        Synced::new(reg, mask)
    }

    /// Power the PHY up: clear the power-down bit and set the
    /// auto-negotiation enable and restart bits in the PHY control
    /// register.
    ///
    /// Negotiation starts asynchronously: the caller must not assume it
    /// has completed on return.
    pub fn power_up<B: RegisterBus>(&self, reg: &mut Reg<B>) -> (r: Result<(), IgbError>)
        ensures
            reg_frame(old(reg).bus, final(reg).bus, MDIC::spec_offset()),
            r matches Ok(()) ==> final(reg).bus.reg_val(MDIC::spec_offset()) & MDIC_READY != 0,
            r matches Err(e) ==> {
                ||| {
                    &&& e == IgbError::PhyAccessError
                    &&& final(reg).bus.reg_val(MDIC::spec_offset()) & MDIC_E != 0
                    &&& final(reg).bus.reg_val(MDIC::spec_offset()) & MDIC_READY == 0
                }
                ||| e == IgbError::Timeout
            },
    {
        let mii_reg = match self.read_mdic(reg, PHY_CONTROL) {
            Ok(v) => v,
            Err(e) => {
                return Err(e);
            },
        };
        self.write_mdic(reg, PHY_CONTROL, power_up_bits(mii_reg))
    }

    /// Read the local advertisement and the partner's base-page ability,
    /// and resolve flow control through the pause-resolution table.
    ///
    /// Meaningful only once auto-negotiation has completed; this core does
    /// not wait for completion before resolving.
    pub fn get_fc_type<B: RegisterBus>(&self, reg: &mut Reg<B>) -> (r: Result<
        IgbFlowControlType,
        IgbError,
    >)
        ensures
            reg_frame(old(reg).bus, final(reg).bus, MDIC::spec_offset()),
            r matches Ok(fc) ==> {
                // the partner side of the resolution comes from the data
                // the last indirect read left in the MDI register; the
                // local advertisement was the read before it
                &&& final(reg).bus.reg_val(MDIC::spec_offset()) & MDIC_READY != 0
                &&& exists|ana: u16|
                    fc == #[trigger] spec_fc_resolution(
                        spec_pause_bit(ana),
                        spec_asm_dir_bit(ana),
                        spec_pause_bit(final(reg).bus.reg_val(MDIC::spec_offset()) as u16),
                        spec_asm_dir_bit(final(reg).bus.reg_val(MDIC::spec_offset()) as u16),
                    )
            },
            r matches Err(e) ==> {
                ||| {
                    &&& e == IgbError::PhyAccessError
                    &&& final(reg).bus.reg_val(MDIC::spec_offset()) & MDIC_E != 0
                    &&& final(reg).bus.reg_val(MDIC::spec_offset()) & MDIC_READY == 0
                }
                ||| e == IgbError::Timeout
            },
    {
        let ana = match self.read_mdic(reg, PHY_AUTO_NEGOTIATION_ADVERTISEMENT) {
            Ok(v) => v,
            Err(e) => {
                return Err(e);
            },
        };
        let anbpa = match self.read_mdic(reg, PHY_AUTO_NEGOTIATION_BASE_PAGE_ABILITY) {
            Ok(v) => v,
            Err(e) => {
                return Err(e);
            },
        };
        let r = resolve_fc_type(ana, anbpa);
        proof {
            assert(r->Ok_0 == spec_fc_resolution(
                spec_pause_bit(ana),
                spec_asm_dir_bit(ana),
                spec_pause_bit(anbpa),
                spec_asm_dir_bit(anbpa),
            ));
        }
        r
    }
}

/// The two-tier guard over a PHY/EEPROM resource shared with firmware.
///
/// Acquisition takes the [`Semaphore`], polls the shared arbitration
/// register until neither software nor firmware holds the resource bits,
/// claims the software bits, and releases the semaphore: the semaphore
/// protects only the brief claim, never the whole critical section.
/// Release is the explicit [`Synced::release`], to be called on every
/// exit path of the guarded scope, error paths included.
pub struct Synced {
    /// The resource bits this guard claimed in the arbitration register.
    mask: u16,
}

impl Synced {
    /// The resource bits this guard claimed.
    pub closed spec fn spec_mask(&self) -> u16 {
        self.mask
    }

    /// Acquire the guard for the resource bits in `mask`.
    ///
    /// On success the arbitration register holds the software bits of
    /// `mask` and the firmware bits of `mask` were observed free. The
    /// poll re-reads without bound in practice; the timeout answer exists
    /// only because the attempt counter is finite.
    pub fn new<B: RegisterBus>(reg: &mut Reg<B>, mask: u16) -> (r: Result<Synced, IgbError>)
        ensures
            reg_frame2(
                old(reg).bus,
                final(reg).bus,
                SWSM::spec_offset(),
                SwFwSync::spec_offset(),
            ),
            r matches Ok(s) ==> {
                &&& s.spec_mask() == mask
                &&& final(reg).bus.reg_val(SwFwSync::spec_offset()) & (mask as u32) == mask as u32
                &&& final(reg).bus.reg_val(SwFwSync::spec_offset()) & ((mask as u32) << 16) == 0
                &&& final(reg).bus.reg_val(SWSM::spec_offset()) & (SWSM_SMBI | SWSM_SWESMBI) == 0
            },
            r matches Err(e) ==> e == IgbError::Timeout,
    {
        let semaphore = match Semaphore::new(reg) {
            Ok(s) => s,
            Err(e) => {
                return Err(e);
            },
        };
        let swmask = mask as u32;
        let fwmask = (mask as u32) << 16;

        let mut i: usize = 0;
        while i < usize::MAX
            invariant
                reg_frame2(old(reg).bus, reg.bus, SWSM::spec_offset(), SwFwSync::spec_offset()),
                swmask == mask as u32,
                fwmask == (mask as u32) << 16,
            decreases usize::MAX - i,
        {
            let swfw_sync = reg.read_reg::<SwFwSync>();
            if swfw_sync.bits & (swmask | fwmask) == 0 {
                let claimed = swfw_sync.bits | swmask;
                reg.write_reg(SwFwSync { bits: claimed });
                proof {
                    let v = swfw_sync.bits;
                    assert((v | swmask) & swmask == swmask) by (bit_vector);
                    assert((v | swmask) & fwmask == 0) by (bit_vector)
                        requires
                            v & (swmask | fwmask) == 0,
                            fwmask == swmask << 16,
                            swmask < 0x10000,
                    ;
                }
                semaphore.release(reg);
                return Ok(Synced { mask });
            }
            i = i + 1;
        }
        semaphore.release(reg);
        Err(IgbError::Timeout)
    }

    /// Release the guard: re-acquire the semaphore, clear the claimed
    /// bits, release the semaphore.
    pub fn release<B: RegisterBus>(self, reg: &mut Reg<B>) -> (r: Result<(), IgbError>)
        ensures
            reg_frame2(
                old(reg).bus,
                final(reg).bus,
                SWSM::spec_offset(),
                SwFwSync::spec_offset(),
            ),
            r matches Ok(()) ==> final(reg).bus.reg_val(SwFwSync::spec_offset()) & (
            self.spec_mask() as u32) == 0,
            r matches Err(e) ==> e == IgbError::Timeout,
    {
        let semaphore = match Semaphore::new(reg) {
            Ok(s) => s,
            Err(e) => {
                return Err(e);
            },
        };
        let swfw_sync = reg.read_reg::<SwFwSync>();
        let cleared = swfw_sync.bits & !(self.mask as u32);
        reg.write_reg(SwFwSync { bits: cleared });
        proof {
            let v = swfw_sync.bits;
            let m = self.mask as u32;
            assert((v & !m) & m == 0) by (bit_vector);
        }
        semaphore.release(reg);
        Ok(())
    }
}

/// The hardware semaphore that arbitrates the brief software/firmware
/// claim window.
///
/// Release is the explicit [`Semaphore::release`], called on every exit
/// path of the claim it protects.
pub struct Semaphore {}

impl Semaphore {
    /// Acquire the semaphore: set the driver-exclusivity bit until the
    /// device confirms the grant on read-back.
    ///
    /// The poll re-reads without bound in practice; the timeout answer
    /// exists only because the attempt counter is finite.
    pub fn new<B: RegisterBus>(reg: &mut Reg<B>) -> (r: Result<Semaphore, IgbError>)
        ensures
            reg_frame(old(reg).bus, final(reg).bus, SWSM::spec_offset()),
            r matches Ok(_) ==> final(reg).bus.reg_val(SWSM::spec_offset()) & SWSM_SWESMBI != 0,
            r matches Err(e) ==> e == IgbError::Timeout,
    {
        let mut i: usize = 0;
        while i < usize::MAX
            invariant
                reg_frame(old(reg).bus, reg.bus, SWSM::spec_offset()),
            decreases usize::MAX - i,
        {
            let swsm = reg.read_reg::<SWSM>();
            reg.write_reg(SWSM { bits: swsm.bits | SWSM_SWESMBI });

            let chk = reg.read_reg::<SWSM>();
            if chk.bits & SWSM_SWESMBI != 0 {
                return Ok(Semaphore {});
            }
            i = i + 1;
        }
        Err(IgbError::Timeout)
    }

    /// Release the semaphore: unconditionally clear both exclusivity
    /// bits.
    pub fn release<B: RegisterBus>(self, reg: &mut Reg<B>)
        ensures
            reg_frame(old(reg).bus, final(reg).bus, SWSM::spec_offset()),
            final(reg).bus.reg_val(SWSM::spec_offset()) & (SWSM_SMBI | SWSM_SWESMBI) == 0,
    {
        let swsm = reg.read_reg::<SWSM>();
        let cleared = swsm.bits & !(SWSM_SMBI | SWSM_SWESMBI);
        reg.write_reg(SWSM { bits: cleared });
        proof {
            let v = swsm.bits;
            assert((v & !(SWSM_SMBI | SWSM_SWESMBI)) & (SWSM_SMBI | SWSM_SWESMBI) == 0)
                by (bit_vector);
        }
    }
}

/// The MDI control word that requests a read of PHY register `offset`
/// at PHY address `addr`.
pub open spec fn spec_mdic_read_request(offset: u32, addr: u32) -> u32 {
    (offset << 16) | (addr << 21) | MDIC_OP_READ
}

/// The MDI control word that requests a read of PHY register `offset`
/// at PHY address `addr`.
pub fn mdic_read_request(offset: u32, addr: u32) -> (r: u32)
    requires
        offset < 32,
        addr < 32,
    ensures
        r == spec_mdic_read_request(offset, addr),
{
    (offset << 16) | (addr << 21) | MDIC_OP_READ
}

/// The MDI control word that requests writing `data` to PHY register
/// `offset` at PHY address `addr`.
pub open spec fn spec_mdic_write_request(offset: u32, addr: u32, data: u16) -> u32 {
    (offset << 16) | (addr << 21) | (data as u32) | MDIC_OP_WRITE
}

/// The MDI control word that requests writing `data` to PHY register
/// `offset` at PHY address `addr`.
pub fn mdic_write_request(offset: u32, addr: u32, data: u16) -> (r: u32)
    requires
        offset < 32,
        addr < 32,
    ensures
        r == spec_mdic_write_request(offset, addr, data),
{
    (offset << 16) | (addr << 21) | (data as u32) | MDIC_OP_WRITE
}

/// The PHY control value that powers the PHY up and restarts
/// auto-negotiation, from the value read.
pub open spec fn spec_power_up_bits(mii: u16) -> u16 {
    (mii & !MII_CR_POWER_DOWN) | MII_CR_AUTO_NEG_EN | MII_CR_RESTART_AUTO_NEG
}

/// The PHY control value that powers the PHY up and restarts
/// auto-negotiation, from the value read.
pub fn power_up_bits(mii: u16) -> (r: u16)
    ensures
        r == spec_power_up_bits(mii),
{
    (mii & !MII_CR_POWER_DOWN) | MII_CR_AUTO_NEG_EN | MII_CR_RESTART_AUTO_NEG
}

} // verus!
