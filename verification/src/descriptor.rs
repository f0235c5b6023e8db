//! The dual-interpretation descriptor formats.
//!
//! One descriptor is a fixed 16-byte hardware record with two
//! non-overlapping valid readings over the same bytes: a software-authored
//! shape (address/length/flags for transmit, buffer pointers for receive)
//! and a hardware-authored write-back shape (completion status and side
//! data). The record is [`RawDescriptor`]; each reading is an explicit
//! accessor view over it, bit-exact by contract. Which view is valid is
//! tracked outside the record, by ring position and ownership, never by
//! an in-record tag: software must not read write-back fields before a
//! completion indicator is observed.
//!
//! The per-direction behaviour — buffer-size query and queue enable —
//! lives in the [`Descriptor`] trait, implemented by the transmit and
//! receive formats.

use vstd::prelude::*;

use crate::regs::{
    spec_rxdctl, spec_srrctl, spec_txdctl, FlagReg, Reg, RegisterBus, RCTL, RCTL_SZ_1024,
    RCTL_SZ_2048, RCTL_SZ_256, RCTL_SZ_512, RCTL_SZ_MASK, RXDCTL_ENABLE, SRRCTL_BSIZEPACKET_MASK,
    TXDCTL_ENABLE, TXDCTL_WTHRESH_MASK, TXDCTL_WTHRESH_MASK_1B,
};
use crate::IgbError;

verus! {

/// The raw 16-byte descriptor record, as its two little-endian 64-bit
/// halves.
#[derive(Debug, Clone, Copy, PartialEq, Eq, Structural)]
pub struct RawDescriptor {
    /// Bytes 0..8 of the record.
    pub low: u64,
    /// Bytes 8..16 of the record.
    pub high: u64,
}

/// One direction's descriptor format: its raw record plus the
/// per-direction buffer-size and queue-enable behaviour.
pub trait Descriptor: Sized {
    /// The raw 16-byte record behind this descriptor.
    spec fn spec_raw(self) -> RawDescriptor;

    /// Which registers this direction's queries and queue enable may
    /// change, for queue `reg_idx`.
    spec fn spec_touches(reg_idx: u32, o: u32) -> bool;

    /// The one queue-control register this direction enables.
    spec fn spec_ctl_offset(reg_idx: u32) -> u32;

    /// The enable bit of that queue-control register.
    spec fn spec_enable_mask() -> u32;

    /// The control word the direction writes to enable its queue, from
    /// the word read: the enable bit set, plus whatever the direction
    /// fixes alongside it.
    spec fn spec_enable_value(cur: u32) -> u32;

    /// What generic ring code may rely on: the queue-control register is
    /// a real register, it is among the touched ones, and the direction
    /// never touches the ring base-address and length registers.
    proof fn properties(reg_idx: u32)
        requires
            reg_idx < 16,
        ensures
            crate::regs::reg_offset_ok(Self::spec_ctl_offset(reg_idx)),
            Self::spec_touches(reg_idx, Self::spec_ctl_offset(reg_idx)),
            !Self::spec_touches(reg_idx, crate::regs::spec_rdbal(reg_idx)),
            !Self::spec_touches(reg_idx, crate::regs::spec_rdbah(reg_idx)),
            !Self::spec_touches(reg_idx, crate::regs::spec_rdlen(reg_idx)),
    ;

    /// A zeroed descriptor record.
    fn new() -> (r: Self)
        ensures
            r.spec_raw() == (RawDescriptor { low: 0, high: 0 }),
    ;

    /// The per-packet receive buffer size for queue `reg_idx`, where the
    /// direction has such a query.
    fn buffer_size<B: RegisterBus>(reg: &mut Reg<B>, reg_idx: u32) -> (r: Result<u32, IgbError>)
        requires
            reg_idx < 16,
        ensures
            forall|o: u32|
                !Self::spec_touches(reg_idx, o) ==> #[trigger] final(reg).bus.reg_val(o) == old(
                    reg,
                ).bus.reg_val(o),
            r matches Ok(sz) ==> 0 < sz <= 2048,
            r matches Err(e) ==> e == IgbError::Unsupported || e == IgbError::UnknownBufferSize,
            // the query only reads: a read-stable register keeps its value
            forall|o: u32|
                !B::read_sensitive(o) ==> #[trigger] final(reg).bus.reg_val(o) == old(
                    reg,
                ).bus.reg_val(o),
    ;

    /// Set the direction's queue-control enable bit for queue `reg_idx`,
    /// then busy-poll the same register until enable reads back set.
    ///
    /// The poll re-reads without bound in practice; the timeout answer
    /// exists only because the attempt counter is finite.
    fn enable_queue<B: RegisterBus>(reg: &mut Reg<B>, reg_idx: u32) -> (r: Result<(), IgbError>)
        requires
            reg_idx < 16,
        ensures
            forall|o: u32|
                !Self::spec_touches(reg_idx, o) ==> #[trigger] final(reg).bus.reg_val(o) == old(
                    reg,
                ).bus.reg_val(o),
            r matches Ok(()) ==> final(reg).bus.reg_val(Self::spec_ctl_offset(reg_idx))
                & Self::spec_enable_mask() != 0,
            r matches Err(e) ==> e == IgbError::Timeout,
            // outside the queue-control register nothing is written: a
            // read-stable register keeps its value
            forall|o: u32|
                !B::read_sensitive(o) && o != Self::spec_ctl_offset(reg_idx)
                    ==> #[trigger] final(reg).bus.reg_val(o) == old(reg).bus.reg_val(o),
            // where the queue-control register itself is read-stable, the
            // word written is the enable encoding of the word that stood
            // there before the call, and read-back succeeds
            !B::read_sensitive(Self::spec_ctl_offset(reg_idx)) ==> {
                &&& r matches Ok(())
                &&& final(reg).bus.reg_val(Self::spec_ctl_offset(reg_idx))
                    == Self::spec_enable_value(
                    old(reg).bus.reg_val(Self::spec_ctl_offset(reg_idx)),
                )
            },
    ;
}

/// The advanced transmit descriptor: one raw record read through the
/// transmit views.
#[derive(Debug, Clone, Copy, PartialEq, Eq, Structural)]
pub struct AdvTxDesc {
    /// The raw 16-byte record.
    pub raw: RawDescriptor,
}

impl AdvTxDesc {
    /// The software-authored transmit reading of the record.
    pub fn as_read(&self) -> (r: AdvTxDescRead)
        ensures
            r.buffer_addr == self.raw.low,
            r.cmd_type_len == self.raw.high as u32,
            r.olinfo_status == (self.raw.high >> 32) as u32,
    {
        AdvTxDescRead {
            buffer_addr: self.raw.low,
            cmd_type_len: self.raw.high as u32,
            olinfo_status: (self.raw.high >> 32) as u32,
        }
    }

    /// Author the record with the software transmit shape.
    pub fn set_read(&mut self, v: AdvTxDescRead)
        ensures
            final(self).raw.low == v.buffer_addr,
            final(self).raw.high == (v.cmd_type_len as u64) | ((v.olinfo_status as u64) << 32),
    {
        self.raw.low = v.buffer_addr;
        self.raw.high = (v.cmd_type_len as u64) | ((v.olinfo_status as u64) << 32);
    }

    /// The hardware-authored write-back reading of the record: valid only
    /// once ring ownership says the hardware has completed this slot.
    pub fn as_writeback(&self) -> (r: AdvTxDescWB)
        ensures
            r.rsvd == self.raw.low,
            r.nxtseq_seed == self.raw.high as u32,
            r.status == (self.raw.high >> 32) as u32,
    {
        AdvTxDescWB {
            rsvd: self.raw.low,
            nxtseq_seed: self.raw.high as u32,
            status: (self.raw.high >> 32) as u32,
        }
    }
}

impl Descriptor for AdvTxDesc {
    open spec fn spec_raw(self) -> RawDescriptor {
        self.raw
    }

    open spec fn spec_touches(reg_idx: u32, o: u32) -> bool {
        o == spec_txdctl(reg_idx)
    }

    open spec fn spec_ctl_offset(reg_idx: u32) -> u32 {
        spec_txdctl(reg_idx)
    }

    open spec fn spec_enable_mask() -> u32 {
        TXDCTL_ENABLE
    }

    open spec fn spec_enable_value(cur: u32) -> u32 {
        spec_txdctl_enable_value(cur)
    }

    proof fn properties(reg_idx: u32) {
    }

    fn new() -> Self {
        AdvTxDesc { raw: RawDescriptor { low: 0, high: 0 } }
    }

    /// Transmit has no buffer-size query.
    fn buffer_size<B: RegisterBus>(reg: &mut Reg<B>, reg_idx: u32) -> (r: Result<u32, IgbError>)
        ensures
            forall|o: u32| #[trigger] final(reg).bus.reg_val(o) == old(reg).bus.reg_val(o),
            final(reg).bus.reads() == old(reg).bus.reads(),
            r == Err::<u32, IgbError>(IgbError::Unsupported),
    {
        Err(IgbError::Unsupported)
    }

    /// Fix the write-back threshold to one descriptor, set transmit queue
    /// enable, and poll until enable reads back set.
    fn enable_queue<B: RegisterBus>(reg: &mut Reg<B>, reg_idx: u32) -> (r: Result<(), IgbError>) {
        let off = crate::regs::txdctl(reg_idx);
        let cur = reg.read_32(off);
        let txdctl_value = txdctl_enable_value(cur);
        reg.write_32(off, txdctl_value);
        proof {
            assert(spec_txdctl_enable_value(cur) & TXDCTL_ENABLE != 0) by (bit_vector)
                requires
                    spec_txdctl_enable_value(cur) == ((cur | TXDCTL_ENABLE) & !TXDCTL_WTHRESH_MASK)
                        | TXDCTL_WTHRESH_MASK_1B,
            ;
        }

        let mut i: usize = 0;
        while i < usize::MAX
            invariant
                off == spec_txdctl(reg_idx),
                crate::regs::reg_offset_ok(off),
                forall|o: u32|
                    o != off ==> #[trigger] reg.bus.reg_val(o) == old(reg).bus.reg_val(o),
                !B::read_sensitive(off) ==> reg.bus.reg_val(off) == spec_txdctl_enable_value(
                    old(reg).bus.reg_val(off),
                ) && spec_txdctl_enable_value(old(reg).bus.reg_val(off)) & TXDCTL_ENABLE != 0,
                i > 0 ==> B::read_sensitive(off),
            decreases usize::MAX - i,
        {
            let v = reg.read_32(off);
            if v & TXDCTL_ENABLE != 0 {
                return Ok(());
            }
            i = i + 1;
        }
        Err(IgbError::Timeout)
    }
}

/// The software-authored transmit shape: buffer address, command/type/
/// length, offload info and status.
#[derive(Debug, Clone, Copy, PartialEq, Eq, Structural)]
pub struct AdvTxDescRead {
    /// Bus address of the packet data to transmit.
    pub buffer_addr: u64,
    /// Command, descriptor type and data length fields.
    pub cmd_type_len: u32,
    /// Offload information and status fields.
    pub olinfo_status: u32,
}

/// The hardware-authored transmit write-back shape.
#[derive(Debug, Clone, Copy, PartialEq, Eq, Structural)]
pub struct AdvTxDescWB {
    /// Reserved bytes.
    pub rsvd: u64,
    /// Next sequence seed.
    pub nxtseq_seed: u32,
    /// Completion status.
    pub status: u32,
}

/// The advanced receive descriptor: one raw record read through the
/// receive views.
#[derive(Debug, Clone, Copy, PartialEq, Eq, Structural)]
pub struct AdvRxDesc {
    /// The raw 16-byte record.
    pub raw: RawDescriptor,
}

impl AdvRxDesc {
    /// The software-authored receive reading of the record.
    pub fn as_read(&self) -> (r: AdvRxDescRead)
        ensures
            r.pkt_addr == self.raw.low,
            r.hdr_addr == self.raw.high,
    {
        AdvRxDescRead { pkt_addr: self.raw.low, hdr_addr: self.raw.high }
    }

    /// Author the record with the software receive shape.
    pub fn set_read(&mut self, v: AdvRxDescRead)
        ensures
            final(self).raw.low == v.pkt_addr,
            final(self).raw.high == v.hdr_addr,
    {
        self.raw.low = v.pkt_addr;
        self.raw.high = v.hdr_addr;
    }

    /// The hardware-authored receive write-back reading of the record:
    /// valid only once a completion indicator was observed for this slot.
    pub fn as_writeback(&self) -> (r: AdvRxDescWB)
        ensures
            r.lo_dword == self.raw.low as u32,
            r.hi_dword == (self.raw.low >> 32) as u32,
            r.status_error == self.raw.high as u32,
            r.length == (self.raw.high >> 32) as u16,
            r.vlan == (self.raw.high >> 48) as u16,
    {
        AdvRxDescWB {
            lo_dword: self.raw.low as u32,
            hi_dword: (self.raw.low >> 32) as u32,
            status_error: self.raw.high as u32,
            length: (self.raw.high >> 32) as u16,
            vlan: (self.raw.high >> 48) as u16,
        }
    }
}

impl Descriptor for AdvRxDesc {
    open spec fn spec_raw(self) -> RawDescriptor {
        self.raw
    }

    open spec fn spec_touches(reg_idx: u32, o: u32) -> bool {
        o == spec_srrctl(reg_idx) || o == RCTL::spec_offset() || o == spec_rxdctl(reg_idx)
    }

    open spec fn spec_ctl_offset(reg_idx: u32) -> u32 {
        spec_rxdctl(reg_idx)
    }

    open spec fn spec_enable_mask() -> u32 {
        RXDCTL_ENABLE
    }

    open spec fn spec_enable_value(cur: u32) -> u32 {
        spec_rxdctl_enable_value(cur)
    }

    proof fn properties(reg_idx: u32) {
    }

    fn new() -> Self {
        AdvRxDesc { raw: RawDescriptor { low: 0, high: 0 } }
    }

    /// The per-queue size-override field decides; when it is zero, the
    /// global buffer-size enumeration of the receive control register.
    fn buffer_size<B: RegisterBus>(reg: &mut Reg<B>, reg_idx: u32) -> (r: Result<u32, IgbError>)
        ensures
            r matches Ok(sz) ==> {
                let s = final(reg).bus.reg_val(spec_srrctl(reg_idx));
                &&& (s & SRRCTL_BSIZEPACKET_MASK != 0 ==> sz == s & SRRCTL_BSIZEPACKET_MASK)
                &&& (s & SRRCTL_BSIZEPACKET_MASK == 0 ==> sz == spec_rctl_buffer_size(
                    final(reg).bus.reg_val(RCTL::spec_offset()),
                ))
            },
            r is Ok,
            // where the two registers read are stable, the answer is fixed
            // by their values as they stood before the call: a nonzero
            // per-queue override wins, a zero one falls back to the global
            // enumeration
            !B::read_sensitive(spec_srrctl(reg_idx)) && !B::read_sensitive(RCTL::spec_offset())
                ==> {
                let s = old(reg).bus.reg_val(spec_srrctl(reg_idx));
                &&& (s & SRRCTL_BSIZEPACKET_MASK != 0 ==> r == Ok::<u32, IgbError>(
                    s & SRRCTL_BSIZEPACKET_MASK,
                ))
                &&& (s & SRRCTL_BSIZEPACKET_MASK == 0 ==> r == Ok::<u32, IgbError>(
                    spec_rctl_buffer_size(old(reg).bus.reg_val(RCTL::spec_offset())),
                ))
            },
    {
        let s = reg.read_32(crate::regs::srrctl(reg_idx));
        let over = s & SRRCTL_BSIZEPACKET_MASK;
        if over == 0 {
            let rctl = reg.read_reg::<RCTL>();
            let sz = rctl.bits & RCTL_SZ_MASK;
            proof {
                let b = rctl.bits;
                assert(b & RCTL_SZ_MASK == 0 || b & RCTL_SZ_MASK == RCTL_SZ_1024 || b
                    & RCTL_SZ_MASK == RCTL_SZ_512 || b & RCTL_SZ_MASK == RCTL_SZ_256)
                    by (bit_vector);
            }
            if sz == RCTL_SZ_2048 {
                Ok(2048)
            } else if sz == RCTL_SZ_1024 {
                Ok(1024)
            } else if sz == RCTL_SZ_512 {
                Ok(512)
            } else if sz == RCTL_SZ_256 {
                Ok(256)
            } else {
                Err(IgbError::UnknownBufferSize)
            }
        } else {
            proof {
                let v = s;
                assert(v & SRRCTL_BSIZEPACKET_MASK <= 2048) by (bit_vector);
            }
            Ok(over)
        }
    }

    /// Set receive queue enable and poll until enable reads back set.
    fn enable_queue<B: RegisterBus>(reg: &mut Reg<B>, reg_idx: u32) -> (r: Result<(), IgbError>) {
        let off = crate::regs::rxdctl(reg_idx);
        let cur = reg.read_32(off);
        let rxdctl_value = rxdctl_enable_value(cur);
        reg.write_32(off, rxdctl_value);
        proof {
            assert(spec_rxdctl_enable_value(cur) & RXDCTL_ENABLE != 0) by (bit_vector)
                requires
                    spec_rxdctl_enable_value(cur) == cur | RXDCTL_ENABLE,
            ;
        }

        let mut i: usize = 0;
        while i < usize::MAX
            invariant
                off == spec_rxdctl(reg_idx),
                crate::regs::reg_offset_ok(off),
                forall|o: u32|
                    o != off ==> #[trigger] reg.bus.reg_val(o) == old(reg).bus.reg_val(o),
                !B::read_sensitive(off) ==> reg.bus.reg_val(off) == spec_rxdctl_enable_value(
                    old(reg).bus.reg_val(off),
                ) && spec_rxdctl_enable_value(old(reg).bus.reg_val(off)) & RXDCTL_ENABLE != 0,
                i > 0 ==> B::read_sensitive(off),
            decreases usize::MAX - i,
        {
            let v = reg.read_32(off);
            if v & RXDCTL_ENABLE != 0 {
                return Ok(());
            }
            i = i + 1;
        }
        Err(IgbError::Timeout)
    }
}

/// The transmit queue-control word that enables the queue: enable set,
/// write-back threshold forced to one descriptor, all other bits kept.
pub open spec fn spec_txdctl_enable_value(cur: u32) -> u32 {
    ((cur | TXDCTL_ENABLE) & !TXDCTL_WTHRESH_MASK) | TXDCTL_WTHRESH_MASK_1B
}

/// The transmit queue-control word that enables the queue: enable set,
/// write-back threshold forced to one descriptor, all other bits kept.
pub fn txdctl_enable_value(cur: u32) -> (r: u32)
    ensures
        r == spec_txdctl_enable_value(cur),
{
    ((cur | TXDCTL_ENABLE) & !TXDCTL_WTHRESH_MASK) | TXDCTL_WTHRESH_MASK_1B
}

/// The receive queue-control word that enables the queue: enable set,
/// all other bits kept.
pub open spec fn spec_rxdctl_enable_value(cur: u32) -> u32 {
    cur | RXDCTL_ENABLE
}

/// The receive queue-control word that enables the queue: enable set,
/// all other bits kept.
pub fn rxdctl_enable_value(cur: u32) -> (r: u32)
    ensures
        r == spec_rxdctl_enable_value(cur),
{
    cur | RXDCTL_ENABLE
}

/// The buffer size named by the receive control register's global
/// size enumeration.
pub open spec fn spec_rctl_buffer_size(rctl: u32) -> u32 {
    let sz = rctl & RCTL_SZ_MASK;
    if sz == RCTL_SZ_2048 {
        2048
    } else if sz == RCTL_SZ_1024 {
        1024
    } else if sz == RCTL_SZ_512 {
        512
    } else {
        256
    }
}

/// The software-authored receive shape: where the hardware may put the
/// packet and its split header.
#[derive(Debug, Clone, Copy, PartialEq, Eq, Structural)]
pub struct AdvRxDescRead {
    /// Bus address of the packet buffer.
    pub pkt_addr: u64,
    /// Bus address of the header buffer.
    pub hdr_addr: u64,
}

impl AdvRxDescRead {
    /// Point this descriptor at a packet buffer.
    pub fn set_packet_address(&mut self, packet_buffer_address: u64)
        ensures
            final(self).pkt_addr == packet_buffer_address,
            final(self).hdr_addr == old(self).hdr_addr,
    {
        self.pkt_addr = packet_buffer_address;
    }
}

/// The hardware-authored receive write-back shape.
#[derive(Debug, Clone, Copy, PartialEq, Eq, Structural)]
pub struct AdvRxDescWB {
    /// Packet-info/header-info or RSS-type word; see [`AdvRxDescWB::hs_rss`].
    pub lo_dword: u32,
    /// RSS hash or checksum/IP-identification word; see
    /// [`AdvRxDescWB::csum_ip`].
    pub hi_dword: u32,
    /// Extended status and error bits.
    pub status_error: u32,
    /// Length of the received packet data.
    pub length: u16,
    /// VLAN tag of the received packet.
    pub vlan: u16,
}

impl AdvRxDescWB {
    /// The header-split/RSS reading of the first word.
    pub fn hs_rss(&self) -> (r: HsRss)
        ensures
            r.pkt_info == self.lo_dword as u16,
            r.hdr_info == (self.lo_dword >> 16) as u16,
    {
        HsRss { pkt_info: self.lo_dword as u16, hdr_info: (self.lo_dword >> 16) as u16 }
    }

    /// The RSS-hash reading of the second word.
    pub fn rss(&self) -> (r: u32)
        ensures
            r == self.hi_dword,
    {
        self.hi_dword
    }

    /// The checksum/IP-identification reading of the second word.
    pub fn csum_ip(&self) -> (r: CsumIp)
        ensures
            r.ip_id == self.hi_dword as u16,
            r.csum == (self.hi_dword >> 16) as u16,
    {
        CsumIp { ip_id: self.hi_dword as u16, csum: (self.hi_dword >> 16) as u16 }
    }
}

/// The header-split/RSS reading of a receive write-back's first word.
#[derive(Debug, Clone, Copy, PartialEq, Eq, Structural)]
pub struct HsRss {
    /// Packet type information.
    pub pkt_info: u16,
    /// Header information.
    pub hdr_info: u16,
}

/// The checksum/IP-identification reading of a receive write-back's
/// second word.
#[derive(Debug, Clone, Copy, PartialEq, Eq, Structural)]
pub struct CsumIp {
    /// IP identification.
    pub ip_id: u16,
    /// Packet checksum.
    pub csum: u16,
}

} // verus!
