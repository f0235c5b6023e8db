//! The typed register-access layer: the sole gateway to device register
//! space.
//!
//! [`RegisterBus`] is the port through which every register access goes.
//! Its contract is the hardware model the whole core is verified against:
//! a write stores its value at the written offset and changes nothing
//! else; a read returns the register's current value and may change only
//! the register that was read (the device may step on a read: a
//! self-clearing reset bit counts down, a command register completes).
//! [`Reg`] owns one bus and layers the typed, whole-register operations
//! and the bounded-polling idiom on top of it.

use vstd::prelude::*;

use crate::IgbError;

verus! {

/// Extended interrupt mask set register offset.
pub const EIMS: u32 = 0x01524;

/// Extended interrupt mask clear register offset.
pub const EIMC: u32 = 0x01528;

/// Extended interrupt cause register offset (read drains pending causes).
pub const EICR: u32 = 0x01580;

/// One past the highest byte offset of the mapped register window.
pub const REG_SPACE_END: u32 = 0x20000;

/// A byte offset that names a 32-bit register: 4-byte aligned and inside
/// the mapped window.
pub open spec fn reg_offset_ok(off: u32) -> bool {
    off % 4 == 0 && off < REG_SPACE_END
}

/// The registers at every offset other than `off` are the same in `post`
/// as in `pre`: one access touches at most the register it names.
pub open spec fn reg_frame<B: RegisterBus>(pre: B, post: B, off: u32) -> bool {
    forall|o: u32| o != off ==> #[trigger] post.reg_val(o) == pre.reg_val(o)
}

/// No register differs between `pre` and `post`.
pub open spec fn reg_unchanged<B: RegisterBus>(pre: B, post: B) -> bool {
    forall|o: u32| #[trigger] post.reg_val(o) == pre.reg_val(o)
}

/// Access to one device's 32-bit register space.
///
/// The model: registers are hardware truth, never cached. A write stores
/// exactly the written value. A read returns the value the register has
/// once the read is done, and may itself step the device — but only at
/// the offset being read, which is how self-clearing and
/// command/completion registers behave toward their one polling owner.
/// `reads` counts read operations, so that bounded polls can promise a
/// bound on the attempts they make.
pub trait RegisterBus: Sized {
    /// Current value of the 32-bit register at byte offset `off`.
    ///
    /// The default stands for an unmodelled bus; a bus the proofs are
    /// run against gives the real definition.
    open spec fn reg_val(&self, off: u32) -> u32 {
        0
    }

    /// How many read operations have been performed on this bus.
    ///
    /// The default stands for an unmodelled bus; a bus the proofs are
    /// run against gives the real definition.
    open spec fn reads(&self) -> nat {
        0
    }

    /// Whether a read of the register at `off` may step it. A port names
    /// its read-sensitive registers here (a self-clearing reset, a
    /// command/completion register); a read of any other register returns
    /// the stored value and leaves it in place. The default claims
    /// nothing: every register may step.
    open spec fn read_sensitive(off: u32) -> bool {
        true
    }

    /// Read the 32-bit register at `off`.
    fn read_32(&mut self, off: u32) -> (r: u32)
        requires
            reg_offset_ok(off),
        ensures
            r == final(self).reg_val(off),
            forall|o: u32| o != off ==> #[trigger] final(self).reg_val(o) == old(self).reg_val(o),
            !Self::read_sensitive(off) ==> r == old(self).reg_val(off),
            final(self).reads() == old(self).reads() + 1,
    ;

    /// Write `val` to the 32-bit register at `off`.
    fn write_32(&mut self, off: u32, val: u32)
        requires
            reg_offset_ok(off),
        ensures
            final(self).reg_val(off) == val,
            forall|o: u32| o != off ==> #[trigger] final(self).reg_val(o) == old(self).reg_val(o),
            final(self).reads() == old(self).reads(),
    ;

    /// Let `ms` milliseconds pass between two poll attempts.
    fn sleep_ms(&mut self, ms: u64)
        ensures
            forall|o: u32| #[trigger] final(self).reg_val(o) == old(self).reg_val(o),
            final(self).reads() == old(self).reads(),
    ;
}

/// A named bitfield set bound to one fixed register offset: the typed
/// reading of a whole register, with no partial-register accessors.
pub trait FlagReg: Sized + Copy {
    /// The one offset this register lives at.
    spec fn spec_offset() -> u32;

    /// The raw 32-bit value this typed value stands for.
    spec fn spec_bits(self) -> u32;

    /// Every register's offset names a 32-bit register in the window.
    proof fn offset_valid()
        ensures
            reg_offset_ok(Self::spec_offset()),
    ;

    /// The register's offset, as a run-time value.
    fn offset() -> (r: u32)
        ensures
            r == Self::spec_offset(),
    ;

    /// Interpret a raw register value as this register's bitfield set.
    fn from_bits(v: u32) -> (r: Self)
        ensures
            r.spec_bits() == v,
    ;

    /// The raw value, back out of the typed reading.
    fn bits(self) -> (r: u32)
        ensures
            r == self.spec_bits(),
    ;
}

/// The typed register port: owns the bus for one device.
pub struct Reg<B: RegisterBus> {
    /// The underlying register-space access.
    pub bus: B,
}

impl<B: RegisterBus> Reg<B> {
    /// Wrap a register bus in the typed port.
    pub fn new(bus: B) -> (r: Self)
        ensures
            r.bus == bus,
    {
        Reg { bus }
    }

    /// Direct, non-cached 32-bit read at `reg`.
    pub fn read_32(&mut self, reg: u32) -> (r: u32)
        requires
            reg_offset_ok(reg),
        ensures
            r == final(self).bus.reg_val(reg),
            reg_frame(old(self).bus, final(self).bus, reg),
            !B::read_sensitive(reg) ==> r == old(self).bus.reg_val(reg),
            final(self).bus.reads() == old(self).bus.reads() + 1,
    {
        self.bus.read_32(reg)
    }

    /// Direct, non-cached 32-bit write of `val` at `reg`.
    pub fn write_32(&mut self, reg: u32, val: u32)
        requires
            reg_offset_ok(reg),
        ensures
            final(self).bus.reg_val(reg) == val,
            reg_frame(old(self).bus, final(self).bus, reg),
            final(self).bus.reads() == old(self).bus.reads(),
    {
        self.bus.write_32(reg, val)
    }

    /// Whole-register read, interpreted as the bitfield set `F`.
    pub fn read_reg<F: FlagReg>(&mut self) -> (r: F)
        ensures
            r.spec_bits() == final(self).bus.reg_val(F::spec_offset()),
            reg_frame(old(self).bus, final(self).bus, F::spec_offset()),
            !B::read_sensitive(F::spec_offset()) ==> r.spec_bits() == old(self).bus.reg_val(
                F::spec_offset(),
            ),
            final(self).bus.reads() == old(self).bus.reads() + 1,
    {
        proof {
            F::offset_valid();
        }
        let off = F::offset();
        let v = self.bus.read_32(off);
        F::from_bits(v)
    }

    /// Whole-register write of the bitfield set `val`.
    pub fn write_reg<F: FlagReg>(&mut self, val: F)
        ensures
            final(self).bus.reg_val(F::spec_offset()) == val.spec_bits(),
            reg_frame(old(self).bus, final(self).bus, F::spec_offset()),
            final(self).bus.reads() == old(self).bus.reads(),
    {
        proof {
            F::offset_valid();
        }
        let off = F::offset();
        self.bus.write_32(off, val.bits())
    }

    /// Read register `F`, apply the pure `f`, write the result back.
    ///
    /// Not atomic against external writers: the single-owner assumption of
    /// the register model. The stored value is `f` of whatever the read
    /// returned, which is exactly what `write_reg(f(read_reg()))` leaves
    /// behind (see `lemma_modify_is_read_then_write`).
    pub fn modify_reg<F: FlagReg, G: Fn(F) -> F>(&mut self, f: G)
        requires
            forall|x: F| call_requires(f, (x,)),
        ensures
            exists|x: F, y: F|
                #[trigger] call_ensures(f, (x,), y)
                    && final(self).bus.reg_val(F::spec_offset()) == y.spec_bits(),
            reg_frame(old(self).bus, final(self).bus, F::spec_offset()),
            // where the register is read-stable, the value handed to `f`
            // is the value that stood there before the call
            !B::read_sensitive(F::spec_offset()) ==> exists|x: F, y: F|
                x.spec_bits() == old(self).bus.reg_val(F::spec_offset()) && #[trigger] call_ensures(
                    f,
                    (x,),
                    y,
                ) && final(self).bus.reg_val(F::spec_offset()) == y.spec_bits(),
            final(self).bus.reads() == old(self).bus.reads() + 1,
    {
        let cur = self.read_reg::<F>();
        self.write_reg(f(cur));
    }

    /// Busy-poll register `R` until `f` accepts the value read, re-reading
    /// each attempt and sleeping `interval_ms` between attempts.
    ///
    /// Succeeds on the first attempt whose read satisfies `f`; fails with
    /// `Timeout` once `try_count` attempts are exhausted (unbounded, in
    /// effect, when `try_count` is `None`). The attempt count is visible as
    /// the number of reads the poll performed.
    pub fn wait_for<R: FlagReg, F: Fn(R) -> bool>(
        &mut self,
        f: F,
        interval_ms: u64,
        try_count: Option<usize>,
    ) -> (r: Result<(), IgbError>)
        requires
            forall|x: R| call_requires(f, (x,)),
        ensures
            reg_frame(old(self).bus, final(self).bus, R::spec_offset()),
            final(self).bus.reads() <= old(self).bus.reads() + attempt_limit(try_count),
            r matches Ok(()) ==> {
                &&& final(self).bus.reads() >= old(self).bus.reads() + 1
                &&& exists|x: R|
                    x.spec_bits() == final(self).bus.reg_val(R::spec_offset())
                        && #[trigger] call_ensures(f, (x,), true)
            },
            r matches Err(e) ==> {
                &&& e == IgbError::Timeout
                &&& final(self).bus.reads() == old(self).bus.reads() + attempt_limit(try_count)
            },
            // a predicate that can never answer false succeeds on the
            // first attempt it is given
            (forall|x: R| !call_ensures(f, (x,), false)) && attempt_limit(try_count) > 0
                ==> r matches Ok(()),
            // where the polled register is read-stable, a predicate that
            // accepts the value standing there succeeds on exactly the
            // first attempt
            !B::read_sensitive(R::spec_offset()) && attempt_limit(try_count) > 0
                && accepts_standing_value(old(self).bus, f) ==> (r matches Ok(())
                && final(self).bus.reads() == old(self).bus.reads() + 1),
    {
        let limit: usize = match try_count {
            Some(n) => n,
            None => usize::MAX,
        };
        let mut i: usize = 0;
        while i < limit
            invariant
                forall|x: R| call_requires(f, (x,)),
                i <= limit,
                limit as nat == attempt_limit(try_count),
                reg_frame(old(self).bus, self.bus, R::spec_offset()),
                self.bus.reads() == old(self).bus.reads() + i,
                i > 0 ==> (exists|x: R| #[trigger] call_ensures(f, (x,), false)),
                !B::read_sensitive(R::spec_offset()) ==> self.bus.reg_val(R::spec_offset()) == old(
                    self,
                ).bus.reg_val(R::spec_offset()),
                i > 0 && !B::read_sensitive(R::spec_offset()) ==> !accepts_standing_value(
                    old(self).bus,
                    f,
                ),
            decreases limit - i,
        {
            let v = self.read_reg::<R>();
            if f(v) {
                return Ok(());
            }
            self.bus.sleep_ms(interval_ms);
            i = i + 1;
        }
        Err(IgbError::Timeout)
    }

    /// Mask every interrupt source, then drain the pending-cause register.
    ///
    /// Must run immediately after any reset, which re-arms interrupts.
    pub fn disable_interrupts(&mut self)
        ensures
            final(self).bus.reg_val(EIMS) == 0,
            final(self).bus.reg_val(EIMC) == u32::MAX,
            forall|o: u32|
                o != EIMS && o != EIMC && o != EICR
                    ==> #[trigger] final(self).bus.reg_val(o) == old(self).bus.reg_val(o),
            final(self).bus.reads() == old(self).bus.reads() + 1,
    {
        self.write_32(EIMS, 0);
        self.clear_interrupts();
    }

    /// Clear all interrupt masks, then read the cause register to drain it.
    pub fn clear_interrupts(&mut self)
        ensures
            final(self).bus.reg_val(EIMC) == u32::MAX,
            forall|o: u32|
                o != EIMC && o != EICR
                    ==> #[trigger] final(self).bus.reg_val(o) == old(self).bus.reg_val(o),
            final(self).bus.reads() == old(self).bus.reads() + 1,
    {
        self.write_32(EIMC, u32::MAX);
        let _ = self.read_32(EICR);
    }

    /// Assemble the 48-bit station address from the first receive-address
    /// register pair, low register first, in low-to-high byte order.
    pub fn read_mac(&mut self) -> (r: [u8; 6])
        ensures
            reg_frame2(old(self).bus, final(self).bus, spec_ral(0), spec_rah(0)),
            final(self).bus.reads() == old(self).bus.reads() + 2,
            r@ == mac_bytes(
                final(self).bus.reg_val(spec_ral(0)),
                final(self).bus.reg_val(spec_rah(0)),
            ),
            // where the address registers are read-stable, the bytes come
            // from the values as they stood before the call, and no
            // register moves
            !B::read_sensitive(spec_ral(0)) && !B::read_sensitive(spec_rah(0)) ==> {
                &&& r@ == mac_bytes(
                    old(self).bus.reg_val(spec_ral(0)),
                    old(self).bus.reg_val(spec_rah(0)),
                )
                &&& reg_unchanged(old(self).bus, final(self).bus)
            },
    {
        let low = self.read_32(ral(0));
        let high = self.read_32(rah(0));

        let r = [
            (low & 0xff) as u8,
            ((low >> 8) & 0xff) as u8,
            ((low >> 16) & 0xff) as u8,
            (low >> 24) as u8,
            (high & 0xff) as u8,
            ((high >> 8) & 0xff) as u8,
        ];
        proof {
            assert(r@ =~= mac_bytes(low, high));
        }
        r
    }

    /// Zero all 128 multicast table array entries — required before the
    /// first receive enable.
    pub fn setup_mta(&mut self)
        ensures
            forall|i: u32| i < 128 ==> final(self).bus.reg_val(#[trigger] spec_mta(i)) == 0,
            forall|o: u32|
                !(0x05200 <= o < 0x05400) ==> #[trigger] final(self).bus.reg_val(o)
                    == old(self).bus.reg_val(o),
            final(self).bus.reads() == old(self).bus.reads(),
    {
        let mut i: u32 = 0;
        while i < 128
            invariant
                i <= 128,
                forall|j: u32| j < i ==> self.bus.reg_val(#[trigger] spec_mta(j)) == 0,
                forall|o: u32|
                    !(0x05200 <= o < 0x05200 + 4 * i) ==> #[trigger] self.bus.reg_val(o)
                        == old(self).bus.reg_val(o),
                self.bus.reads() == old(self).bus.reads(),
            decreases 128 - i,
        {
            self.write_32(mta(i), 0x0000_0000);
            i = i + 1;
        }
    }
}

/// Whether the predicate `f` accepts — on every answer it may give —
/// the value standing in register `R` on the bus `bus`.
pub open spec fn accepts_standing_value<B: RegisterBus, R: FlagReg, F: Fn(R) -> bool>(
    bus: B,
    f: F,
) -> bool {
    forall|x: R, b: bool|
        x.spec_bits() == bus.reg_val(R::spec_offset()) && #[trigger] call_ensures(f, (x,), b)
            ==> b
}

/// How many poll attempts a `try_count` allows.
pub open spec fn attempt_limit(try_count: Option<usize>) -> nat {
    match try_count {
        Some(n) => n as nat,
        None => usize::MAX as nat,
    }
}

/// The registers at every offset other than `off1` and `off2` are the same
/// in `post` as in `pre`.
pub open spec fn reg_frame2<B: RegisterBus>(pre: B, post: B, off1: u32, off2: u32) -> bool {
    forall|o: u32| o != off1 && o != off2 ==> #[trigger] post.reg_val(o) == pre.reg_val(o)
}

/// The six station-address bytes carried by a receive-address register
/// pair, in low-to-high byte order.
pub open spec fn mac_bytes(low: u32, high: u32) -> Seq<u8> {
    seq![
        (low & 0xff) as u8,
        ((low >> 8) & 0xff) as u8,
        ((low >> 16) & 0xff) as u8,
        (low >> 24) as u8,
        (high & 0xff) as u8,
        ((high >> 8) & 0xff) as u8,
    ]
}

/// Writing back the value a typed read just returned changes no register:
/// the read-then-write-back pair leaves every register exactly as the read
/// alone left it.
pub proof fn lemma_read_write_roundtrip<B: RegisterBus>(s0: B, s1: B, s2: B, off: u32, v: u32)
    requires
        // a read step from `s0` to `s1` that returned `v`
        reg_frame(s0, s1, off),
        s1.reg_val(off) == v,
        // a write step from `s1` to `s2` that stored `v` back
        reg_frame(s1, s2, off),
        s2.reg_val(off) == v,
    ensures
        reg_unchanged(s1, s2),
{
}

/// A read step followed by a write step at one offset is exactly one
/// read-modify-write: the overall effect frames the same offset and stores
/// the written value, which is the whole contract of `modify_reg`.
pub proof fn lemma_modify_is_read_then_write<B: RegisterBus>(s0: B, s1: B, s2: B, off: u32, x: u32, y: u32)
    requires
        // the read step, returning `x`
        reg_frame(s0, s1, off),
        s1.reg_val(off) == x,
        // the write step, storing `y`
        reg_frame(s1, s2, off),
        s2.reg_val(off) == y,
    ensures
        reg_frame(s0, s2, off),
        s2.reg_val(off) == y,
{
}

/* Multicast Table Array - 128 entries */

/// Multicast table array entry offset.
pub open spec fn spec_mta(i: u32) -> u32 {
    (0x05200 + i * 4) as u32
}

/// Multicast table array entry offset.
pub fn mta(i: u32) -> (r: u32)
    requires
        i < 128,
    ensures
        r == spec_mta(i),
        reg_offset_ok(r),
{
    0x05200 + i * 4
}

/* Receive Address Low */

/// Receive address low register offset.
pub open spec fn spec_ral(i: u32) -> u32 {
    if i <= 15 {
        (0x05400 + i * 8) as u32
    } else {
        (0x054E0 + (i - 16) * 8) as u32
    }
}

/// Receive address low register offset.
pub fn ral(i: u32) -> (r: u32)
    requires
        i < 32,
    ensures
        r == spec_ral(i),
        reg_offset_ok(r),
{
    if i <= 15 {
        0x05400 + i * 8
    } else {
        0x054E0 + (i - 16) * 8
    }
}

/* Receive Address High */

/// Receive address high register offset.
pub open spec fn spec_rah(i: u32) -> u32 {
    if i <= 15 {
        (0x05404 + i * 8) as u32
    } else {
        (0x054E4 + (i - 16) * 8) as u32
    }
}

/// Receive address high register offset.
pub fn rah(i: u32) -> (r: u32)
    requires
        i < 32,
    ensures
        r == spec_rah(i),
        reg_offset_ok(r),
{
    if i <= 15 {
        0x05404 + i * 8
    } else {
        0x054E4 + (i - 16) * 8
    }
}

// Device control register bits.
pub const CTRL_FD: u32 = 0x00000001;
pub const CTRL_LRST: u32 = 0x00000008;
pub const CTRL_ASDE: u32 = 0x00000020;
pub const CTRL_SLU: u32 = 0x00000040;
pub const CTRL_ILOS: u32 = 0x00000080;
pub const CTRL_SPD_SEL: u32 = 0x00000300;
pub const CTRL_SPD_10: u32 = 0x00000000;
pub const CTRL_SPD_100: u32 = 0x00000100;
pub const CTRL_SPD_1000: u32 = 0x00000200;
pub const CTRL_FRCSPD: u32 = 0x00000800;
pub const CTRL_FRCDPX: u32 = 0x00001000;
pub const CTRL_DEV_RST: u32 = 0x20000000;
pub const CTRL_RST: u32 = 0x04000000;
pub const CTRL_RFCE: u32 = 0x08000000;
pub const CTRL_TFCE: u32 = 0x10000000;
pub const CTRL_VME: u32 = 0x40000000;
pub const CTRL_PHY_RST: u32 = 0x80000000;

/// Device control register: reset, forced link/speed/duplex, flow control.
#[derive(Clone, Copy)]
pub struct CTRL {
    /// Raw register value.
    pub bits: u32,
}

impl FlagReg for CTRL {
    open spec fn spec_offset() -> u32 {
        0x00000
    }

    open spec fn spec_bits(self) -> u32 {
        self.bits
    }

    proof fn offset_valid() {
    }

    fn offset() -> u32 {
        0x00000
    }

    fn from_bits(v: u32) -> Self {
        CTRL { bits: v }
    }

    fn bits(self) -> u32 {
        self.bits
    }
}

// Device status register bits.
pub const STATUS_FD: u32 = 0x00000001;
pub const STATUS_LU: u32 = 0x00000002;
pub const STATUS_TXOFF: u32 = 0x00000010;
pub const STATUS_SPEED: u32 = 0x00000040;
pub const STATUS_PHYRA: u32 = 0x00000400;

/// Device status register: link up, duplex, speed, PHY reset asserted.
#[derive(Clone, Copy)]
pub struct STATUS {
    /// Raw register value.
    pub bits: u32,
}

impl FlagReg for STATUS {
    open spec fn spec_offset() -> u32 {
        0x00008
    }

    open spec fn spec_bits(self) -> u32 {
        self.bits
    }

    proof fn offset_valid() {
    }

    fn offset() -> u32 {
        0x00008
    }

    fn from_bits(v: u32) -> Self {
        STATUS { bits: v }
    }

    fn bits(self) -> u32 {
        self.bits
    }
}

// Extended device control register bits.
pub const CTRL_EXT_EE_RST: u32 = 0x00002000;
pub const CTRL_EXT_DRV_LOAD: u32 = 0x10000000;
pub const CTRL_EXT_LINK_MODE_DIRECT_COPPER: u32 = 0x00000000;
pub const CTRL_EXT_LINK_MODE_SGMII: u32 = 0x00800000;
pub const CTRL_EXT_LINK_MODE_INTERNAL_SERDES: u32 = 0x00C00000;

/// Extended device control register: driver-loaded mark, link mode select.
#[allow(non_camel_case_types)]
#[derive(Clone, Copy)]
pub struct CTRL_EXT {
    /// Raw register value.
    pub bits: u32,
}

impl FlagReg for CTRL_EXT {
    open spec fn spec_offset() -> u32 {
        0x00018
    }

    open spec fn spec_bits(self) -> u32 {
        self.bits
    }

    proof fn offset_valid() {
    }

    fn offset() -> u32 {
        0x00018
    }

    fn from_bits(v: u32) -> Self {
        CTRL_EXT { bits: v }
    }

    fn bits(self) -> u32 {
        self.bits
    }
}

// MDI control register bits: the one register carrying the MDIO protocol.
pub const MDIC_DATA: u32 = 0x0000FFFF;
pub const MDIC_REGADD: u32 = 0x001F0000;
pub const MDIC_PHYADD: u32 = 0x03E00000;
pub const MDIC_OP_WRITE: u32 = 0x04000000;
pub const MDIC_OP_READ: u32 = 0x08000000;
pub const MDIC_READY: u32 = 0x10000000;
pub const MDIC_I: u32 = 0x20000000;
pub const MDIC_E: u32 = 0x40000000;

/// MDI control register: encodes indirect PHY requests and completions.
#[derive(Clone, Copy)]
pub struct MDIC {
    /// Raw register value.
    pub bits: u32,
}

impl FlagReg for MDIC {
    open spec fn spec_offset() -> u32 {
        0x00020
    }

    open spec fn spec_bits(self) -> u32 {
        self.bits
    }

    proof fn offset_valid() {
    }

    fn offset() -> u32 {
        0x00020
    }

    fn from_bits(v: u32) -> Self {
        MDIC { bits: v }
    }

    fn bits(self) -> u32 {
        self.bits
    }
}

// Receive control register bits.
pub const RCTL_RST: u32 = 0x00000001;
pub const RCTL_RXEN: u32 = 0x00000002;
pub const RCTL_SBP: u32 = 0x00000004;
pub const RCTL_UPE: u32 = 0x00000008;
pub const RCTL_MPE: u32 = 0x00000010;
pub const RCTL_LPE: u32 = 0x00000020;
pub const RCTL_BAM: u32 = 0x00008000;
pub const RCTL_SZ_MASK: u32 = 0x00030000;
pub const RCTL_SZ_2048: u32 = 0x00000000;
pub const RCTL_SZ_1024: u32 = 0x00010000;
pub const RCTL_SZ_512: u32 = 0x00020000;
pub const RCTL_SZ_256: u32 = 0x00030000;
pub const RCTL_VFE: u32 = 0x00040000;
pub const RCTL_PSP: u32 = 0x00200000;
pub const RCTL_BSEX: u32 = 0x02000000;
pub const RCTL_SECRC: u32 = 0x04000000;

/// Receive control register: receiver enable and global buffer sizing.
#[derive(Clone, Copy)]
pub struct RCTL {
    /// Raw register value.
    pub bits: u32,
}

impl FlagReg for RCTL {
    open spec fn spec_offset() -> u32 {
        0x00100
    }

    open spec fn spec_bits(self) -> u32 {
        self.bits
    }

    proof fn offset_valid() {
    }

    fn offset() -> u32 {
        0x00100
    }

    fn from_bits(v: u32) -> Self {
        RCTL { bits: v }
    }

    fn bits(self) -> u32 {
        self.bits
    }
}

// Transmit control register bits.
pub const TCTL_EN: u32 = 0x00000002;

/// Transmit control register: transmitter enable.
#[derive(Clone, Copy)]
pub struct TCTL {
    /// Raw register value.
    pub bits: u32,
}

impl FlagReg for TCTL {
    open spec fn spec_offset() -> u32 {
        0x00400
    }

    open spec fn spec_bits(self) -> u32 {
        self.bits
    }

    proof fn offset_valid() {
    }

    fn offset() -> u32 {
        0x00400
    }

    fn from_bits(v: u32) -> Self {
        TCTL { bits: v }
    }

    fn bits(self) -> u32 {
        self.bits
    }
}

// Software semaphore register bits.
pub const SWSM_SMBI: u32 = 0x00000001;
pub const SWSM_SWESMBI: u32 = 0x00000002;
pub const SWSM_WMNG: u32 = 0x00000004;
pub const SWSM_EEUR: u32 = 0x00000008;

/// Software semaphore register: the driver-exclusivity bits.
#[derive(Clone, Copy)]
pub struct SWSM {
    /// Raw register value.
    pub bits: u32,
}

impl FlagReg for SWSM {
    open spec fn spec_offset() -> u32 {
        0x05B50
    }

    open spec fn spec_bits(self) -> u32 {
        self.bits
    }

    proof fn offset_valid() {
    }

    fn offset() -> u32 {
        0x05B50
    }

    fn from_bits(v: u32) -> Self {
        SWSM { bits: v }
    }

    fn bits(self) -> u32 {
        self.bits
    }
}

// Software/firmware synchronization register bits.
pub const SW_FW_SYNC_SW_EEP_SM: u32 = 0x00000001;
pub const SW_FW_SYNC_SW_PHY_SM0: u32 = 0x00000002;
pub const SW_FW_SYNC_SW_PHY_SM1: u32 = 0x00000004;

/// Software/firmware synchronization register: the arbitration bits shared
/// with device firmware.
#[derive(Clone, Copy)]
pub struct SwFwSync {
    /// Raw register value.
    pub bits: u32,
}

impl FlagReg for SwFwSync {
    open spec fn spec_offset() -> u32 {
        0x05B5C
    }

    open spec fn spec_bits(self) -> u32 {
        self.bits
    }

    proof fn offset_valid() {
    }

    fn offset() -> u32 {
        0x05B5C
    }

    fn from_bits(v: u32) -> Self {
        SwFwSync { bits: v }
    }

    fn bits(self) -> u32 {
        self.bits
    }
}

/* Receive Descriptor Base Address Low */

/// Receive descriptor base address low register offset for queue `i`.
pub open spec fn spec_rdbal(i: u32) -> u32 {
    if i < 4 {
        (0x02800 + i * 0x100) as u32
    } else {
        (0x0C000 + i * 0x040) as u32
    }
}

/// Receive descriptor base address low register offset for queue `i`.
pub fn rdbal(i: u32) -> (r: u32)
    requires
        i < 16,
    ensures
        r == spec_rdbal(i),
        reg_offset_ok(r),
{
    if i < 4 {
        0x02800 + i * 0x100
    } else {
        0x0C000 + i * 0x040
    }
}

/* Receive Descriptor Base Address High */

/// Receive descriptor base address high register offset for queue `i`.
pub open spec fn spec_rdbah(i: u32) -> u32 {
    if i < 4 {
        (0x02804 + i * 0x100) as u32
    } else {
        (0x0C004 + i * 0x040) as u32
    }
}

/// Receive descriptor base address high register offset for queue `i`.
pub fn rdbah(i: u32) -> (r: u32)
    requires
        i < 16,
    ensures
        r == spec_rdbah(i),
        reg_offset_ok(r),
{
    if i < 4 {
        0x02804 + i * 0x100
    } else {
        0x0C004 + i * 0x040
    }
}

/* Receive Descriptor Ring Length */

/// Receive descriptor ring length register offset for queue `i`.
pub open spec fn spec_rdlen(i: u32) -> u32 {
    if i < 4 {
        (0x02808 + i * 0x100) as u32
    } else {
        (0x0C008 + i * 0x040) as u32
    }
}

/// Receive descriptor ring length register offset for queue `i`.
pub fn rdlen(i: u32) -> (r: u32)
    requires
        i < 16,
    ensures
        r == spec_rdlen(i),
        reg_offset_ok(r),
{
    if i < 4 {
        0x02808 + i * 0x100
    } else {
        0x0C008 + i * 0x040
    }
}

/* Receive Descriptor Head */

/// Receive descriptor head register offset for queue `i`.
pub open spec fn spec_rdh(i: u32) -> u32 {
    if i < 4 {
        (0x02810 + i * 0x100) as u32
    } else {
        (0x0C010 + i * 0x040) as u32
    }
}

/// Receive descriptor head register offset for queue `i`.
pub fn rdh(i: u32) -> (r: u32)
    requires
        i < 16,
    ensures
        r == spec_rdh(i),
        reg_offset_ok(r),
{
    if i < 4 {
        0x02810 + i * 0x100
    } else {
        0x0C010 + i * 0x040
    }
}

/* Receive Descriptor Tail */

/// Receive descriptor tail register offset for queue `i`.
pub open spec fn spec_rdt(i: u32) -> u32 {
    if i < 4 {
        (0x02818 + i * 0x100) as u32
    } else {
        (0x0C018 + i * 0x040) as u32
    }
}

/// Receive descriptor tail register offset for queue `i`.
pub fn rdt(i: u32) -> (r: u32)
    requires
        i < 16,
    ensures
        r == spec_rdt(i),
        reg_offset_ok(r),
{
    if i < 4 {
        0x02818 + i * 0x100
    } else {
        0x0C018 + i * 0x040
    }
}

/* Receive Descriptor Control */

/// Receive descriptor control register offset for queue `i`.
pub open spec fn spec_rxdctl(i: u32) -> u32 {
    if i < 4 {
        (0x02828 + i * 0x100) as u32
    } else {
        (0x0C028 + i * 0x040) as u32
    }
}

/// Receive descriptor control register offset for queue `i`.
pub fn rxdctl(i: u32) -> (r: u32)
    requires
        i < 16,
    ensures
        r == spec_rxdctl(i),
        reg_offset_ok(r),
{
    if i < 4 {
        0x02828 + i * 0x100
    } else {
        0x0C028 + i * 0x040
    }
}

/// Receive descriptor control: queue enable bit.
pub const RXDCTL_ENABLE: u32 = 0x02000000;

/* Rx DCA Control Registers */

/// Receive DCA control register offset for queue `i`.
#[allow(dead_code)]
fn rxctl(i: u32) -> (r: u32)
    requires
        i < 16,
    ensures
        reg_offset_ok(r),
{
    if i < 4 {
        0x02814 + i * 0x100
    } else {
        0x0C014 + i * 0x040
    }
}

/* Split and Replication Receive Control */

/// Split and replication receive control register offset for queue `i`.
pub open spec fn spec_srrctl(i: u32) -> u32 {
    (0x0C00C + i * 0x040) as u32
}

/// Split and replication receive control register offset for queue `i`.
pub fn srrctl(i: u32) -> (r: u32)
    requires
        i < 16,
    ensures
        r == spec_srrctl(i),
        reg_offset_ok(r),
{
    0x0C00C + i * 0x040
}

/// Split and replication receive control: per-queue packet-buffer size
/// override field.
pub const SRRCTL_BSIZEPACKET_MASK: u32 = 0x7F;

/// Split and replication receive control: header-buffer size field.
pub const SRRCTL_BSIZEHEADER_MASK: u32 = 0xF00;

/* Packet Split Receive Type */

/// Packet split receive type register offset for queue `i`.
#[allow(dead_code)]
fn psrtype(i: u32) -> (r: u32)
    requires
        i < 16,
    ensures
        reg_offset_ok(r),
{
    0x05480 + i * 4
}

/* EType Queue Filter */

/// EType queue filter register offset.
#[allow(dead_code)]
fn etqf(i: u32) -> (r: u32)
    requires
        i < 8,
    ensures
        reg_offset_ok(r),
{
    0x05CB0 + i * 4
}

/* Five-tuple queue filter registers */

/// Five-tuple queue filter register offset.
#[allow(dead_code)]
fn ftqf(i: u32) -> (r: u32)
    requires
        i < 8,
    ensures
        reg_offset_ok(r),
{
    0x059E0 + i * 4
}

/// Source port queue filter register offset.
#[allow(dead_code)]
fn spqf(i: u32) -> (r: u32)
    requires
        i < 8,
    ensures
        reg_offset_ok(r),
{
    0x059C0 + i * 4
}

/// Immediate interrupt receive register offset.
#[allow(dead_code)]
fn imir(i: u32) -> (r: u32)
    requires
        i < 8,
    ensures
        reg_offset_ok(r),
{
    0x05A80 + i * 4
}

/// Immediate interrupt receive extended register offset.
#[allow(dead_code)]
fn imir_ext(i: u32) -> (r: u32)
    requires
        i < 8,
    ensures
        reg_offset_ok(r),
{
    0x05AA0 + i * 4
}

/// Destination address queue filter register offset.
#[allow(dead_code)]
fn daqf(i: u32) -> (r: u32)
    requires
        i < 8,
    ensures
        reg_offset_ok(r),
{
    0x059A0 + i * 4
}

/// Source address queue filter register offset.
#[allow(dead_code)]
fn saqf(i: u32) -> (r: u32)
    requires
        i < 8,
    ensures
        reg_offset_ok(r),
{
    0x05980 + i * 4
}

/* SYN packet queue filter */

/// SYN packet queue filter register offset.
#[allow(dead_code)]
fn synqf(i: u32) -> (r: u32)
    requires
        i < 8,
    ensures
        reg_offset_ok(r),
{
    0x055FC + i * 4
}

/* RSS Random Key Register */

/// RSS random key register offset.
#[allow(dead_code)]
fn rssrk(i: u32) -> (r: u32)
    requires
        i < 10,
    ensures
        reg_offset_ok(r),
{
    0x05C80 + i * 4
}

/* Manageability Decision Filters */

/// Manageability decision filter register offset.
#[allow(dead_code)]
fn mdef(i: u32) -> (r: u32)
    requires
        i < 8,
    ensures
        reg_offset_ok(r),
{
    0x05890 + i * 4
}

/* Transmit descriptor registers */

/// Transmit descriptor control register offset for queue `i`.
pub open spec fn spec_txdctl(i: u32) -> u32 {
    (0x0E028 + i * 0x40) as u32
}

/// Transmit descriptor control register offset for queue `i`.
pub fn txdctl(i: u32) -> (r: u32)
    requires
        i < 16,
    ensures
        r == spec_txdctl(i),
        reg_offset_ok(r),
{
    0x0E028 + i * 0x40
}

/// Transmit descriptor control: queue enable bit.
pub const TXDCTL_ENABLE: u32 = 0x02000000;

/// Transmit descriptor control: write-back threshold field.
pub const TXDCTL_WTHRESH_MASK: u32 = 0x001F0000;

/// Transmit descriptor control: write-back threshold of one descriptor.
pub const TXDCTL_WTHRESH_MASK_1B: u32 = 0x0010000;

/// Transmit descriptor head register offset for queue `i`.
pub fn tdh(i: u32) -> (r: u32)
    requires
        i < 16,
    ensures
        r == 0x0E010 + i * 0x40,
        reg_offset_ok(r),
{
    0x0E010 + i * 0x40
}

/// Transmit descriptor tail register offset for queue `i`.
pub fn tdt(i: u32) -> (r: u32)
    requires
        i < 16,
    ensures
        r == 0x0E018 + i * 0x40,
        reg_offset_ok(r),
{
    0x0E018 + i * 0x40
}

} // verus!
