use emucore::mimesys::common::z80::{Z80Cpu, Z80Registers};
use emucore::mimesys::gameboy::gb_mock_bus::MockBus;

fn regs() -> Z80Registers {
    Z80Cpu::new().regs
}

#[test]
fn pairs_round_trip() {
    let mut r = regs();
    r.set_bc(0x1234);
    assert_eq!((r.b, r.c), (0x12, 0x34));
    assert_eq!(r.bc(), 0x1234);
    r.set_de(0xBEEF);
    assert_eq!(r.de(), 0xBEEF);
    r.set_hl(0x00FF);
    assert_eq!((r.h, r.l), (0x00, 0xFF));
    r.set_af(0xA5F0);
    assert_eq!(r.af(), 0xA5F0);
}

#[test]
fn read_and_write_by_index() {
    let mut bus = MockBus::new();
    let mut r = regs();
    r.write_r(0, 0x11, &mut bus);
    r.write_r(7, 0x77, &mut bus);
    assert_eq!(r.b, 0x11);
    assert_eq!(r.a, 0x77);
    assert_eq!(r.read_r(0, &mut bus), 0x11);
    assert_eq!(r.read_r(15, &mut bus), 0x77, "the index is taken modulo 8");
    r.set_hl(0xC000);
    r.write_r(6, 0x5A, &mut bus);
    assert_eq!(bus.ram[0xC000], 0x5A);
    assert_eq!(r.read_r(6, &mut bus), 0x5A);
}

#[test]
fn new_core_is_cleared() {
    let cpu = Z80Cpu::new();
    assert_eq!(cpu.pc, 0);
    assert_eq!(cpu.total_cycles, 0);
    assert!(!cpu.is_running);
    assert_eq!(cpu.regs.af(), 0);
}
