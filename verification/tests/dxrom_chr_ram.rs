use emucore::gd_emu::nes::mappers::mapper206::Mapper206;
use emucore::gd_emu::nes::mappers::{Mapper, Mirroring};

#[test]
fn dxrom_chr_ram_board_keeps_whole_register_values() {
    let mut m = Mapper206::new(2, 0, vec![0; 16384], vec![], Mirroring::Vertical, false);
    assert_eq!(m.chr_ram.len(), 8192);
    // select CHR register 2 (the first 1 KiB window of $1000), then set it to 5
    m.cpu_write(0x8000, 2);
    m.cpu_write(0x8001, 5);
    assert_eq!(m.bank_registers[2], 5);
    m.ppu_write(0x1000, 0xAB);
    assert_eq!(m.chr_ram[(5 * 0x400) % 8192], 0xAB);
    assert_eq!(m.ppu_read(0x1000), 0xAB);
    assert_eq!(m.ppu_read(0x2000), 0);
}

#[test]
fn dxrom_chr_rom_board_masks_chr_registers() {
    let mut m = Mapper206::new(2, 1, vec![0; 16384], vec![7; 8192], Mirroring::Vertical, false);
    m.cpu_write(0x8000, 2);
    m.cpu_write(0x8001, 0x0F);
    assert_eq!(m.bank_registers[2], 0x07);
    assert_eq!(m.ppu_read(0x1000), 7);
}
