//! Ring construction and programming, buffer-size resolution for both
//! directions, the simulated DMA allocator, and the descriptor views.

use igb::descriptor::{
    rxdctl_enable_value, txdctl_enable_value, AdvRxDesc, AdvRxDescRead, AdvTxDesc, AdvTxDescRead,
    Descriptor, RawDescriptor,
};
use igb::dma::{DmaAllocator, DmaDirection};
use igb::regs::Reg;
use igb::ring::Ring;
use igb::sim::{SimBus, SimDma};
use igb::IgbError;

const SRRCTL0: u32 = 0x0C00C;
const RCTL_OFF: u32 = 0x00100;
const RCTL_SZ_1024: u32 = 0x00010000;
const RDBAL0: u32 = 0x02800;
const RDBAH0: u32 = 0x02804;
const RDLEN0: u32 = 0x02808;
const RXDCTL0: u32 = 0x02828;
const TXDCTL0: u32 = 0x0E028;

#[test]
fn sim_allocator_hands_out_aligned_regions() {
    let mut dma = SimDma::new(0x1000);
    let a = dma.allocate(100, 64, DmaDirection::Bidirectional).unwrap();
    assert_eq!(a.bus_addr, 0x1000);
    assert_eq!(a.len, 100);
    let b = dma.allocate(16, 64, DmaDirection::Bidirectional).unwrap();
    assert_eq!(b.bus_addr % 64, 0);
    assert!(b.bus_addr >= a.bus_addr + 100);
}

#[test]
fn sim_allocator_fails_near_address_exhaustion() {
    let mut dma = SimDma::new(u64::MAX - 8);
    assert!(dma.allocate(64, 4096, DmaDirection::Bidirectional).is_none());
}

#[test]
fn ring_construction_fails_with_no_memory() {
    let mut dma = SimDma::new(u64::MAX - 8);
    let r = Ring::<AdvRxDesc>::new(&mut dma, 256);
    assert!(matches!(r, Err(IgbError::NoMemory)));
}

#[test]
fn receive_buffer_size_global_enumeration_when_override_zero() {
    // override field zero, global enumeration says 1024
    let mut bus = SimBus::new(0);
    bus.poke(SRRCTL0, 0);
    bus.poke(RCTL_OFF, RCTL_SZ_1024);
    let mut reg = Reg::new(bus);

    assert_eq!(AdvRxDesc::buffer_size(&mut reg, 0), Ok(1024));
}

#[test]
fn receive_buffer_size_override_wins() {
    // an explicit 96 in the per-queue override field wins
    let mut bus = SimBus::new(0);
    bus.poke(SRRCTL0, 96);
    bus.poke(RCTL_OFF, RCTL_SZ_1024);
    let mut reg = Reg::new(bus);

    assert_eq!(AdvRxDesc::buffer_size(&mut reg, 0), Ok(96));
}

#[test]
fn receive_buffer_size_covers_whole_enumeration() {
    for (bits, expect) in [
        (0x00000000u32, 2048u32),
        (0x00010000, 1024),
        (0x00020000, 512),
        (0x00030000, 256),
    ] {
        let mut bus = SimBus::new(0);
        bus.poke(RCTL_OFF, bits);
        let mut reg = Reg::new(bus);
        assert_eq!(AdvRxDesc::buffer_size(&mut reg, 0), Ok(expect));
    }
}

#[test]
fn transmit_has_no_buffer_size_query() {
    let mut reg = Reg::new(SimBus::new(0));
    assert_eq!(AdvTxDesc::buffer_size(&mut reg, 0), Err(IgbError::Unsupported));
}

#[test]
fn receive_ring_init_programs_base_length_and_enable() {
    // a 64-bit bus address: low and high halves land in their registers
    let base: u64 = 0x0001_2345_6789_A000;
    let mut dma = SimDma::new(base);
    let mut ring = Ring::<AdvRxDesc>::new(&mut dma, 256).unwrap();
    let mut reg = Reg::new(SimBus::new(0));

    assert_eq!(ring.init(&mut reg, &mut dma), Ok(()));

    assert_eq!(reg.bus.peek(RDBAL0), (base & 0xFFFF_FFFF) as u32);
    assert_eq!(reg.bus.peek(RDBAL0), 0x6789_A000);
    assert_eq!(reg.bus.peek(RDBAH0), (base >> 32) as u32);
    assert_eq!(reg.bus.peek(RDBAH0), 0x0001_2345);
    assert_eq!(reg.bus.peek(RDLEN0), 256 * 16);
    assert_ne!(reg.bus.peek(RXDCTL0) & 0x0200_0000, 0);
}

#[test]
fn transmit_ring_init_programs_and_enables_transmit_queue() {
    let base: u64 = 0xABCD_E000;
    let mut dma = SimDma::new(base);
    let mut ring = Ring::<AdvTxDesc>::new(&mut dma, 64).unwrap();
    let mut reg = Reg::new(SimBus::new(0));

    assert_eq!(ring.init(&mut reg, &mut dma), Ok(()));

    assert_eq!(reg.bus.peek(RDBAL0), 0xABCD_E000);
    assert_eq!(reg.bus.peek(RDBAH0), 0);
    assert_eq!(reg.bus.peek(RDLEN0), 64 * 16);
    assert_ne!(reg.bus.peek(TXDCTL0) & 0x0200_0000, 0);
    // write-back threshold fixed to one descriptor
    assert_eq!(reg.bus.peek(TXDCTL0) & 0x001F_0000, 0x0001_0000);
}

#[test]
fn receive_ring_init_fails_no_memory_when_buffers_cannot_be_had() {
    let mut dma = SimDma::new(0x1000);
    let mut ring = Ring::<AdvRxDesc>::new(&mut dma, 256).unwrap();
    // exhaust the address space before the packet-buffer allocation
    let mut poor = SimDma::new(u64::MAX - 8);
    let mut reg = Reg::new(SimBus::new(0));

    assert_eq!(ring.init(&mut reg, &mut poor), Err(IgbError::NoMemory));
}

#[test]
fn descriptor_new_is_zeroed() {
    let t = <AdvTxDesc as Descriptor>::new();
    assert_eq!(t.raw, RawDescriptor { low: 0, high: 0 });
    let r = <AdvRxDesc as Descriptor>::new();
    assert_eq!(r.raw, RawDescriptor { low: 0, high: 0 });
}

#[test]
fn transmit_views_share_the_record_bytes() {
    let mut d = <AdvTxDesc as Descriptor>::new();
    d.set_read(AdvTxDescRead {
        buffer_addr: 0x1122_3344_5566_7788,
        cmd_type_len: 0xAABB_CCDD,
        olinfo_status: 0x0102_0304,
    });
    let read = d.as_read();
    assert_eq!(read.buffer_addr, 0x1122_3344_5566_7788);
    assert_eq!(read.cmd_type_len, 0xAABB_CCDD);
    assert_eq!(read.olinfo_status, 0x0102_0304);

    // the write-back view reads the same sixteen bytes
    let wb = d.as_writeback();
    assert_eq!(wb.rsvd, 0x1122_3344_5566_7788);
    assert_eq!(wb.nxtseq_seed, 0xAABB_CCDD);
    assert_eq!(wb.status, 0x0102_0304);
}

#[test]
fn receive_views_share_the_record_bytes() {
    let mut d = <AdvRxDesc as Descriptor>::new();
    let mut sw = d.as_read();
    sw.set_packet_address(0xDEAD_BEEF_0000_1000);
    sw.hdr_addr = 0x0000_4444_0000_2000;
    d.set_read(sw);

    assert_eq!(d.as_read().pkt_addr, 0xDEAD_BEEF_0000_1000);

    let wb = d.as_writeback();
    assert_eq!(wb.lo_dword, 0x0000_1000);
    assert_eq!(wb.hi_dword, 0xDEAD_BEEF);
    assert_eq!(wb.status_error, 0x0000_2000);
    assert_eq!(wb.length, 0x4444);
    assert_eq!(wb.vlan, 0x0000);
}

#[test]
fn receive_writeback_word_readings() {
    let mut d = <AdvRxDesc as Descriptor>::new();
    d.set_read(AdvRxDescRead { pkt_addr: 0xCAFE_F00D_1234_5678, hdr_addr: 0 });
    let wb = d.as_writeback();

    let hs = wb.hs_rss();
    assert_eq!(hs.pkt_info, 0x5678);
    assert_eq!(hs.hdr_info, 0x1234);

    assert_eq!(wb.rss(), 0xCAFE_F00D);
    let csum = wb.csum_ip();
    assert_eq!(csum.ip_id, 0xF00D);
    assert_eq!(csum.csum, 0xCAFE);
}

#[test]
fn queue_enable_encodings_are_exact() {
    // receive: the enable bit alone is added
    assert_eq!(rxdctl_enable_value(0), 0x0200_0000);
    assert_eq!(rxdctl_enable_value(0x0000_1234), 0x0200_1234);
    // transmit: enable set and the write-back threshold forced to one
    // descriptor, all other bits kept
    assert_eq!(txdctl_enable_value(0), 0x0201_0000);
    assert_eq!(txdctl_enable_value(0x001F_0000), 0x0201_0000);
    assert_eq!(txdctl_enable_value(0x8008_0A0A), 0x8201_0A0A);
}
