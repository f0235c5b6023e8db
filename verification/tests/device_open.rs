//! End-to-end bring-up over the simulated register file and allocator.

use igb::igb::{Igb, Speed};
use igb::sim::{SimBus, SimDma};
use igb::IgbError;

const CTRL_OFF: u32 = 0x00000;
const CTRL_FD: u32 = 0x00000001;
const CTRL_SLU: u32 = 0x00000040;
const CTRL_SPD_1000: u32 = 0x00000200;
const CTRL_RST: u32 = 0x04000000;
const RCTL_OFF: u32 = 0x00100;
const RCTL_RXEN: u32 = 0x00000002;
const RCTL_SZ_256: u32 = 0x00030000;
const TCTL_OFF: u32 = 0x00400;
const TCTL_EN: u32 = 0x00000002;
const RXDCTL0: u32 = 0x02828;
const TXDCTL0: u32 = 0x0E028;
const ENABLE_BIT: u32 = 0x0200_0000;
const STATUS_OFF: u32 = 0x00008;

#[test]
fn open_observes_reset_clear_and_enables_everything() {
    // the asserted reset survives five reads, well inside the thousand
    // attempts open budgets
    let mut bus = SimBus::new(5);
    bus.poke(CTRL_OFF, CTRL_RST);
    let dma = SimDma::new(0x0000_0007_FFFF_0000);

    let mut dev = Igb::new(bus, dma).unwrap();
    assert_eq!(dev.open(), Ok(()));

    let b = dev.bus();
    assert_eq!(b.peek(CTRL_OFF), CTRL_SLU | CTRL_FD | CTRL_SPD_1000);
    assert_eq!(b.peek(RCTL_OFF), RCTL_RXEN | RCTL_SZ_256);
    assert_eq!(b.peek(TCTL_OFF), TCTL_EN);
    assert_ne!(b.peek(RXDCTL0) & ENABLE_BIT, 0);
    assert_ne!(b.peek(TXDCTL0) & ENABLE_BIT, 0);
}

#[test]
fn open_times_out_when_reset_never_clears() {
    // a reset surviving more reads than the thousand attempts allowed
    let bus = SimBus::new(2000);
    let dma = SimDma::new(0x1000);

    let mut dev = Igb::new(bus, dma).unwrap();
    assert_eq!(dev.open(), Err(IgbError::Timeout));
}

#[test]
fn open_surfaces_phy_access_error() {
    let mut bus = SimBus::new(0);
    bus.set_mdic_fail(true);
    let dma = SimDma::new(0x1000);

    let mut dev = Igb::new(bus, dma).unwrap();
    assert_eq!(dev.open(), Err(IgbError::PhyAccessError));
}

#[test]
fn construction_fails_no_memory_when_allocator_is_exhausted() {
    let bus = SimBus::new(0);
    let dma = SimDma::new(u64::MAX - 8);
    assert!(matches!(Igb::new(bus, dma), Err(IgbError::NoMemory)));
}

#[test]
fn status_decodes_the_status_register() {
    let mut bus = SimBus::new(0);
    // link up, full duplex, hundred-megabit speed, PHY reset asserted
    bus.poke(STATUS_OFF, 0x2 | 0x1 | (0b01 << 6) | 0x400);
    let dma = SimDma::new(0x1000);
    let mut dev = Igb::new(bus, dma).unwrap();

    let st = dev.status();
    assert!(st.link_up);
    assert!(st.full_duplex);
    assert!(st.phy_reset_asserted);
    assert_eq!(st.speed, Speed::Mb100);
}

#[test]
fn status_speed_field_decoding() {
    for (bits, speed) in [
        (0b00u32, Speed::Mb10),
        (0b01, Speed::Mb100),
        (0b10, Speed::Mb1000),
        (0b11, Speed::Mb1000),
    ] {
        let mut bus = SimBus::new(0);
        bus.poke(STATUS_OFF, bits << 6);
        let dma = SimDma::new(0x1000);
        let mut dev = Igb::new(bus, dma).unwrap();
        assert_eq!(dev.status().speed, speed);
    }
}

#[test]
fn mac_reads_the_station_address() {
    let mut bus = SimBus::new(0);
    bus.poke(0x05400, 0xD4C3_B2A1);
    bus.poke(0x05404, 0x0000_F6E5);
    let dma = SimDma::new(0x1000);
    let mut dev = Igb::new(bus, dma).unwrap();

    assert_eq!(dev.mac(), [0xA1, 0xB2, 0xC3, 0xD4, 0xE5, 0xF6]);
}
