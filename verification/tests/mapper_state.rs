use emucore::gd_emu::nes::mappers::mapper64::Mapper64;
use emucore::gd_emu::nes::mappers::mapper7::Mapper7;
use emucore::gd_emu::nes::mappers::Mirroring;

#[test]
fn axrom_state_round_trip() {
    let mut a = Mapper7::new(2, 0, vec![0; 65536], vec![], Mirroring::SingleLower, false);
    a.prg_ram[3] = 9;
    a.chr_ram[5] = 7;
    let v = a.state_variables();
    let mut b = Mapper7::new(2, 0, vec![0; 65536], vec![], Mirroring::Vertical, false);
    b.restore_state_variables(v);
    assert_eq!(b.prg_ram[3], 9);
    assert_eq!(b.chr_ram[5], 7);
    assert!(b.mirroring_mode == Mirroring::SingleLower);
    assert_eq!(b.prg_banks, 2);
}

#[test]
fn rambo_state_round_trip() {
    let mut a = Mapper64::new(4, 1, vec![0; 32768], vec![0; 8192], Mirroring::Vertical, false, 0);
    a.bank_registers[6] = 3;
    a.irq_latch = 0x40;
    a.prg_ram[1] = 0x99;
    let v = a.state_variables();
    let mut b = Mapper64::new(4, 1, vec![0; 32768], vec![0; 8192], Mirroring::Horizontal, false, 0);
    b.restore_state_variables(v);
    assert_eq!(b.bank_registers[6], 3);
    assert_eq!(b.irq_latch, 0x40);
    assert_eq!(b.prg_ram[1], 0x99);
    assert!(b.mirroring_mode == Mirroring::Vertical);
}
