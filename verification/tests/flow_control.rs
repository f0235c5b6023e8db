//! The pause-resolution table and the PHY paths around it: all sixteen
//! bit combinations, the MDIO protocol over the simulated PHY, power-up,
//! the access-error path, and the arbitration guards.

use igb::phy::{
    mdic_read_request, mdic_write_request, resolve_fc_type, IgbFlowControlType, Phy, Semaphore,
    Synced,
};
use igb::regs::Reg;
use igb::sim::SimBus;
use igb::IgbError;

const PAUSE: u16 = 1 << 10;
const ASM_DIR: u16 = 1 << 11;

fn word(pause: bool, asm_dir: bool) -> u16 {
    (if pause { PAUSE } else { 0 }) | (if asm_dir { ASM_DIR } else { 0 })
}

/// The resolution table, row by row, with the symmetric row first.
fn table(lp: bool, la: bool, pp: bool, pa: bool) -> IgbFlowControlType {
    if lp && pp {
        IgbFlowControlType::IgbFCFull
    } else if !lp && la && pp && pa {
        IgbFlowControlType::IgbFCTxPause
    } else if lp && la && !pp && pa {
        IgbFlowControlType::IgbFCRxPause
    } else {
        IgbFlowControlType::IgbFCNone
    }
}

#[test]
fn resolution_matches_table_on_all_sixteen_combinations() {
    for bits in 0..16u32 {
        let lp = bits & 1 != 0;
        let la = bits & 2 != 0;
        let pp = bits & 4 != 0;
        let pa = bits & 8 != 0;
        let got = resolve_fc_type(word(lp, la), word(pp, pa));
        assert_eq!(got, Ok(table(lp, la, pp, pa)), "combination {:04b}", bits);
    }
}

#[test]
fn resolution_concrete_rows() {
    // no pause support anywhere
    assert_eq!(
        resolve_fc_type(word(false, false), word(false, false)),
        Ok(IgbFlowControlType::IgbFCNone)
    );
    // local asymmetric, partner symmetric-capable: transmit pause
    assert_eq!(
        resolve_fc_type(word(false, true), word(true, true)),
        Ok(IgbFlowControlType::IgbFCTxPause)
    );
    // local symmetric-capable, partner asymmetric: receive pause
    assert_eq!(
        resolve_fc_type(word(true, true), word(false, true)),
        Ok(IgbFlowControlType::IgbFCRxPause)
    );
    // both pause bits set: full, whatever the direction bits say
    assert_eq!(
        resolve_fc_type(word(true, false), word(true, false)),
        Ok(IgbFlowControlType::IgbFCFull)
    );
    // partner offers nothing
    assert_eq!(
        resolve_fc_type(word(true, true), word(false, false)),
        Ok(IgbFlowControlType::IgbFCNone)
    );
}

#[test]
fn read_mdic_returns_simulated_phy_register() {
    let mut bus = SimBus::new(0);
    bus.set_phy_reg(4, 0x0C00);
    let mut reg = Reg::new(bus);
    let phy = Phy::new();

    assert_eq!(phy.read_mdic(&mut reg, 4), Ok(0x0C00));
}

#[test]
fn write_mdic_stores_into_simulated_phy_register() {
    let mut reg = Reg::new(SimBus::new(0));
    let phy = Phy::new();

    assert_eq!(phy.write_mdic(&mut reg, 4, 0xBEEF), Ok(()));
    assert_eq!(reg.bus.phy_reg(4), 0xBEEF);
}

#[test]
fn mdic_error_bit_fails_phy_access() {
    let mut bus = SimBus::new(0);
    bus.set_mdic_fail(true);
    let mut reg = Reg::new(bus);
    let phy = Phy::new();

    assert_eq!(phy.read_mdic(&mut reg, 4), Err(IgbError::PhyAccessError));
    assert_eq!(phy.write_mdic(&mut reg, 0, 0), Err(IgbError::PhyAccessError));
    assert_eq!(phy.power_up(&mut reg), Err(IgbError::PhyAccessError));
    assert_eq!(phy.get_fc_type(&mut reg), Err(IgbError::PhyAccessError));
}

#[test]
fn power_up_clears_power_down_and_restarts_negotiation() {
    let mut bus = SimBus::new(0);
    bus.set_phy_reg(0, 0x0800); // powered down
    let mut reg = Reg::new(bus);
    let phy = Phy::new();

    assert_eq!(phy.power_up(&mut reg), Ok(()));
    // power-down cleared, auto-negotiation enable and restart set
    assert_eq!(reg.bus.phy_reg(0), 0x1200);
}

#[test]
fn get_fc_type_resolves_from_phy_registers() {
    let mut bus = SimBus::new(0);
    bus.set_phy_reg(4, word(false, true)); // local: asymmetric only
    bus.set_phy_reg(5, word(true, true)); // partner: both
    let mut reg = Reg::new(bus);
    let phy = Phy::new();

    assert_eq!(phy.get_fc_type(&mut reg), Ok(IgbFlowControlType::IgbFCTxPause));

    reg.bus.set_phy_reg(4, word(true, false));
    reg.bus.set_phy_reg(5, word(true, false));
    assert_eq!(phy.get_fc_type(&mut reg), Ok(IgbFlowControlType::IgbFCFull));
}

#[test]
fn semaphore_sets_and_clears_exclusivity() {
    let mut reg = Reg::new(SimBus::new(0));
    let sem = Semaphore::new(&mut reg).unwrap();
    assert_ne!(reg.bus.peek(0x05B50) & 0x2, 0);
    sem.release(&mut reg);
    assert_eq!(reg.bus.peek(0x05B50) & 0x3, 0);
}

#[test]
fn sync_guard_claims_and_releases_mask() {
    let mut reg = Reg::new(SimBus::new(0));
    let phy = Phy::new();

    let guard = phy.aquire_sync(&mut reg, 0x2).unwrap();
    assert_eq!(reg.bus.peek(0x05B5C) & 0x2, 0x2);

    assert_eq!(guard.release(&mut reg), Ok(()));
    assert_eq!(reg.bus.peek(0x05B5C) & 0x2, 0);
}

#[test]
fn sync_guard_via_synced_new() {
    let mut reg = Reg::new(SimBus::new(0));
    let guard = Synced::new(&mut reg, 0x4).unwrap();
    assert_eq!(reg.bus.peek(0x05B5C) & 0x4, 0x4);
    assert_eq!(guard.release(&mut reg), Ok(()));
    assert_eq!(reg.bus.peek(0x05B5C), 0);
}

#[test]
fn mdio_request_encodings_are_exact() {
    // offset in bits 16..21, PHY address in bits 21..26, read op code
    assert_eq!(mdic_read_request(4, 1), (4 << 16) | (1 << 21) | 0x0800_0000);
    assert_eq!(mdic_read_request(5, 1), 0x0825_0000);
    // write op code carries the 16 data bits
    assert_eq!(
        mdic_write_request(0, 1, 0x1200),
        (1 << 21) | 0x1200 | 0x0400_0000
    );
    assert_eq!(mdic_write_request(31, 31, 0xFFFF), 0x07FF_FFFF);
}
