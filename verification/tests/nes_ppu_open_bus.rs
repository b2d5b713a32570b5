use emucore::gd_emu::nes::mappers::mapper0::Mapper0;
use emucore::gd_emu::nes::mappers::{Mapper, Mirroring};
use emucore::gd_emu::nes::nes_ppu::NesPPU;

fn make_ppu() -> (NesPPU, Box<dyn Mapper>) {
    let ppu = NesPPU::new();
    let mapper: Box<dyn Mapper> = Box::new(Mapper0::new(1, 1, vec![0; 8192], vec![0; 8192], Mirroring::Horizontal));
    (ppu, mapper)
}

#[test]
fn status_read_merges_open_bus_low_bits() {
    let (mut ppu, mut mapper) = make_ppu();
    ppu.status = 0x80;
    ppu.scanline = 100;
    let res = ppu.cpu_read_reg(mapper.as_mut(), 2, 0xFF);
    assert_eq!(res, 0x9F, "status bits 5-7 real, bits 0-4 from open bus 0x1F");
}

#[test]
fn status_low_bits_do_not_leak_from_status_reg() {
    let (mut ppu, mut mapper) = make_ppu();
    ppu.status = 0x81;
    ppu.scanline = 100;
    let res = ppu.cpu_read_reg(mapper.as_mut(), 2, 0x00);
    assert_eq!(res, 0x80, "status must be masked to 0xE0 before merging open bus; low bit must not leak");
}

#[test]
fn write_only_ppu_regs_return_open_bus() {
    let (mut ppu, mut mapper) = make_ppu();
    ppu.scanline = 100;
    for reg in [0u16, 1, 3, 5, 6] {
        let res = ppu.cpu_read_reg(mapper.as_mut(), reg, 0xA5);
        assert_eq!(res, 0xA5, "write-only PPU reg {} returns open bus", reg);
    }
}
