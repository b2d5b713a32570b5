use emucore::mimesys::common::timed::Timed;
use emucore::mimesys::gameboy::gb_common::GbVariant;
use emucore::mimesys::gameboy::gb_palette::{preset_palette, Preset};
use emucore::mimesys::gameboy::gb_ppu::GbPPU;

fn ppu() -> GbPPU {
    GbPPU::new(GbVariant::Dmg, preset_palette(Preset::DmgGreen))
}

#[test]
fn power_on_registers() {
    let mut p = ppu();
    assert_eq!(p.read_register(0xFF40), 0x91);
    assert_eq!(p.read_register(0xFF41), 0x85 | 0x80);
    assert_eq!(p.read_register(0xFF47), 0xFC);
    assert_eq!(p.read_register(0xFF4F), 0xFF, "no VRAM bank register on the DMG");
    assert_eq!(p.read_register(0xFF68), 0xFF);
}

#[test]
fn scroll_registers_read_back() {
    let mut p = ppu();
    p.write_register(0xFF43, 0x13);
    p.write_register(0xFF42, 0x27);
    assert_eq!(p.read_register(0xFF43), 0x13);
    assert_eq!(p.read_register(0xFF42), 0x27);
}

#[test]
fn first_line_ends_after_hblank() {
    let mut p = ppu();
    p.run_until(203);
    assert_eq!(p.read_register(0xFF44), 0);
    p.run_until(204);
    assert_eq!(p.read_register(0xFF44), 1);
    p.run_until(204 + 456);
    assert_eq!(p.read_register(0xFF44), 2);
}

#[test]
fn vblank_starts_on_line_144() {
    let mut p = ppu();
    let start_of_144: u64 = 204 + 143 * 456;
    p.run_until(start_of_144 - 1);
    assert_eq!(p.read_register(0xFF44), 143);
    assert_eq!(p.take_irqs() & 0x01, 0);
    p.run_until(start_of_144);
    assert_eq!(p.read_register(0xFF44), 144);
    assert_eq!(p.take_irqs() & 0x01, 0x01);
    assert!(p.take_frame_published());
    assert!(!p.take_frame_published());
}

#[test]
fn run_until_is_idempotent() {
    let mut p = ppu();
    p.run_until(1000);
    let ly = p.read_register(0xFF44);
    p.run_until(500);
    assert_eq!(p.read_register(0xFF44), ly);
}

#[test]
fn lcd_off_parks_on_line_zero() {
    let mut p = ppu();
    p.run_until(5000);
    p.write_register(0xFF40, 0x11);
    assert_eq!(p.read_register(0xFF44), 0);
    assert_eq!(p.read_register(0xFF41) & 0x03, 0);
}
