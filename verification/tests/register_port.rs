//! The typed register port over the simulated register file: plain
//! access, read-then-write-back, read-modify-write, bounded polling,
//! interrupt masking, station-address assembly and multicast-table
//! clearing.

use igb::regs::{Reg, EICR, EIMC, EIMS};
use igb::sim::SimBus;
use igb::IgbError;

const CTRL_OFF: u32 = 0x00000;
const CTRL_RST: u32 = 0x04000000;
const RCTL_OFF: u32 = 0x00100;
const STATUS_OFF: u32 = 0x00008;

#[test]
fn write_then_read_roundtrip() {
    let mut reg = Reg::new(SimBus::new(0));
    reg.write_32(RCTL_OFF, 0xDEAD_BEEF);
    assert_eq!(reg.read_32(RCTL_OFF), 0xDEAD_BEEF);
    assert_eq!(reg.read_32(STATUS_OFF), 0);
}

#[test]
fn read_then_write_back_is_noop() {
    // Writing back what a typed read returned leaves every register as
    // the read left it.
    let mut reg = Reg::new(SimBus::new(0));
    reg.write_32(RCTL_OFF, 0x0001_0002);
    reg.write_32(STATUS_OFF, 0x83);

    let rctl: igb::regs::RCTL = reg.read_reg();
    reg.write_reg(rctl);

    assert_eq!(reg.bus.peek(RCTL_OFF), 0x0001_0002);
    assert_eq!(reg.bus.peek(STATUS_OFF), 0x83);
}

#[test]
fn modify_matches_read_then_write() {
    // modify on one register file and explicit read-then-write on an
    // identical one end in the same state.
    let mut left = Reg::new(SimBus::new(0));
    let mut right = Reg::new(SimBus::new(0));
    left.write_32(RCTL_OFF, 0x0F0);
    right.write_32(RCTL_OFF, 0x0F0);

    left.modify_reg(|r: igb::regs::RCTL| igb::regs::RCTL { bits: r.bits | 0x2 });

    let v: igb::regs::RCTL = right.read_reg();
    right.write_reg(igb::regs::RCTL { bits: v.bits | 0x2 });

    assert_eq!(left.bus.peek(RCTL_OFF), right.bus.peek(RCTL_OFF));
    assert_eq!(left.bus.peek(RCTL_OFF), 0x0F2);
}

#[test]
fn wait_for_succeeds_on_exact_attempt() {
    // A reset surviving five reads is observed clear on the sixth
    // attempt, within a ten-attempt budget.
    let mut bus = SimBus::new(5);
    bus.poke(CTRL_OFF, CTRL_RST);
    let mut reg = Reg::new(bus);

    let r = reg.wait_for(
        |c: igb::regs::CTRL| c.bits & CTRL_RST == 0,
        1,
        Some(10),
    );
    assert_eq!(r, Ok(()));
    assert_eq!(reg.bus.peek(CTRL_OFF) & CTRL_RST, 0);
    assert_eq!(reg.bus.rst_countdown(), 0);
}

#[test]
fn wait_for_times_out_one_attempt_short() {
    // With the same five-read reset, five attempts are one too few.
    let mut bus = SimBus::new(5);
    bus.poke(CTRL_OFF, CTRL_RST);
    let mut reg = Reg::new(bus);

    let r = reg.wait_for(
        |c: igb::regs::CTRL| c.bits & CTRL_RST == 0,
        1,
        Some(5),
    );
    assert_eq!(r, Err(IgbError::Timeout));
    assert_ne!(reg.bus.peek(CTRL_OFF) & CTRL_RST, 0);

    // One more attempt is exactly enough.
    let r = reg.wait_for(
        |c: igb::regs::CTRL| c.bits & CTRL_RST == 0,
        1,
        Some(1),
    );
    assert_eq!(r, Ok(()));
}

#[test]
fn wait_for_timeout_when_predicate_never_holds() {
    let mut reg = Reg::new(SimBus::new(0));
    let r = reg.wait_for(
        |c: igb::regs::STATUS| c.bits & 0x2 != 0,
        1,
        Some(3),
    );
    assert_eq!(r, Err(IgbError::Timeout));
}

#[test]
fn wait_for_zero_attempts_times_out_immediately() {
    let mut reg = Reg::new(SimBus::new(0));
    let r = reg.wait_for(|_c: igb::regs::STATUS| true, 1, Some(0));
    assert_eq!(r, Err(IgbError::Timeout));
}

#[test]
fn disable_interrupts_masks_and_drains() {
    let mut bus = SimBus::new(0);
    bus.poke(EIMS, 0xFFFF_FFFF);
    bus.poke(EICR, 0x1234);
    let mut reg = Reg::new(bus);

    reg.disable_interrupts();

    assert_eq!(reg.bus.peek(EIMS), 0);
    assert_eq!(reg.bus.peek(EIMC), u32::MAX);
}

#[test]
fn read_mac_assembles_low_to_high() {
    let mut bus = SimBus::new(0);
    bus.poke(0x05400, 0x4433_2211); // receive address low, entry zero
    bus.poke(0x05404, 0x0000_6655); // receive address high, entry zero
    let mut reg = Reg::new(bus);

    assert_eq!(reg.read_mac(), [0x11, 0x22, 0x33, 0x44, 0x55, 0x66]);
}

#[test]
fn setup_mta_zeroes_all_entries() {
    let mut bus = SimBus::new(0);
    bus.poke(0x05200, 0xAAAA_AAAA);
    bus.poke(0x05200 + 4 * 127, 0x5555_5555);
    let mut reg = Reg::new(bus);

    reg.setup_mta();

    for i in 0..128u32 {
        assert_eq!(reg.bus.peek(0x05200 + 4 * i), 0);
    }
}

#[test]
fn wait_for_stable_register_succeeds_first_attempt() {
    // the status register has no read behaviour: a predicate true of the
    // standing value succeeds at once
    let mut bus = SimBus::new(0);
    bus.poke(STATUS_OFF, 0x2);
    let mut reg = Reg::new(bus);
    let r = reg.wait_for(
        |s: igb::regs::STATUS| s.bits & 0x2 != 0,
        1,
        Some(5),
    );
    assert_eq!(r, Ok(()));
}
