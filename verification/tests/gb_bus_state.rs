use emucore::mimesys::gameboy::gb_bus::{GbBusState, GbReadOutcome, GbWriteOutcome};

fn dmg() -> GbBusState {
    GbBusState::new(false, vec![], false)
}

#[test]
fn work_ram_and_echo() {
    let mut b = dmg();
    assert!(b.write(0xC010, 0x42) == GbWriteOutcome::Done);
    assert!(b.read(0xC010) == GbReadOutcome::Value(0x42));
    assert!(b.read(0xE010) == GbReadOutcome::Value(0x42), "echo RAM mirrors work RAM");
    assert!(b.write(0xD001, 0x17) == GbWriteOutcome::Done);
    assert!(b.read(0xF001) == GbReadOutcome::Value(0x17));
}

#[test]
fn high_ram_and_ie() {
    let mut b = dmg();
    b.write(0xFF80, 0x99);
    b.write(0xFFFF, 0x1F);
    assert!(b.read(0xFF80) == GbReadOutcome::Value(0x99));
    assert!(b.read(0xFFFF) == GbReadOutcome::Value(0x1F));
    assert!(b.read(0xFEA0) == GbReadOutcome::Value(0xFF), "the unusable area reads $FF");
}

#[test]
fn devices_are_routed() {
    let mut b = dmg();
    assert!(b.read(0x0100) == GbReadOutcome::Cartridge);
    assert!(b.read(0x8000) == GbReadOutcome::Vram);
    assert!(b.read(0xFE05) == GbReadOutcome::Oam(5));
    assert!(b.read(0xFF00) == GbReadOutcome::Joypad);
    assert!(b.read(0xFF05) == GbReadOutcome::Timer);
    assert!(b.read(0xFF26) == GbReadOutcome::Apu);
    assert!(b.read(0xFF44) == GbReadOutcome::Ppu);
    assert!(b.write(0xFF46, 0xC0) == GbWriteOutcome::OamDma);
    assert!(b.write(0x2000, 0x01) == GbWriteOutcome::Cartridge);
}

#[test]
fn interrupt_and_serial_registers() {
    let mut b = dmg();
    b.write(0xFF0F, 0xFF);
    assert!(b.read(0xFF0F) == GbReadOutcome::Value(0xFF));
    assert_eq!(b.iflags, 0x1F);
    b.write(0xFF0F, 0x00);
    b.write(0xFF02, 0x81);
    assert_eq!(b.iflags, 0x08, "a transfer with no partner completes at once");
    assert!(b.read(0xFF01) == GbReadOutcome::Value(0xFF));
    assert!(b.read(0xFF02) == GbReadOutcome::Value(0x7F));
}

#[test]
fn color_banks_and_vram_dma() {
    let mut b = GbBusState::new(true, vec![], false);
    b.write(0xFF70, 0x03);
    b.write(0xD000, 0xAB);
    b.write(0xFF70, 0x04);
    assert!(b.read(0xD000) == GbReadOutcome::Value(0x00));
    b.write(0xFF70, 0x03);
    assert!(b.read(0xD000) == GbReadOutcome::Value(0xAB));
    assert!(b.read(0xFF70) == GbReadOutcome::Value(0xFB));
    assert!(b.write(0xFF55, 0x01) == GbWriteOutcome::Gdma(2));
    assert!(b.write(0xFF55, 0x83) == GbWriteOutcome::Done);
    assert!(b.hdma_active);
    assert!(b.read(0xFF55) == GbReadOutcome::Value(0x03));
    b.finish_hdma_block();
    assert!(b.read(0xFF55) == GbReadOutcome::Value(0x02));
    assert_eq!(b.dma_stall_m_cycles, 8);
    b.write(0xFF55, 0x00);
    assert!(!b.hdma_active);
}

#[test]
fn dmg_cannot_select_banks_past_its_ram() {
    let b = dmg();
    assert!(b.write_allowed(0xFF70, 0x01));
    assert!(!b.write_allowed(0xFF70, 0x02));
    assert!(b.write_allowed(0xC000, 0xFF));
}

#[test]
fn boot_rom_overlay() {
    let mut b = GbBusState::new(true, vec![0x31; 0x900], true);
    assert!(b.read(0x0000) == GbReadOutcome::Value(0x31));
    assert!(b.read(0x0100) == GbReadOutcome::Cartridge);
    assert!(b.read(0xFF50) == GbReadOutcome::Value(0x00));
    b.write(0xFF50, 0x11);
    assert!(b.read(0x0000) == GbReadOutcome::Cartridge);
    assert!(b.read(0xFF50) == GbReadOutcome::Value(0x01));
}
