use emucore::gd_emu::nes::mappers::mapper0::Mapper0;
use emucore::gd_emu::nes::mappers::{Mapper, Mirroring};
use emucore::gd_emu::nes::nes_ppu::NesPPU;

fn make_ppu() -> (NesPPU, Box<dyn Mapper>) {
    let ppu = NesPPU::new();
    let mapper: Box<dyn Mapper> = Box::new(Mapper0::new(1, 1, vec![0; 8192], vec![0; 8192], Mirroring::Horizontal));
    (ppu, mapper)
}

#[test]
fn ctrl_write_selects_tables_size_and_increment() {
    let (mut ppu, mut mapper) = make_ppu();
    ppu.cpu_write_reg(mapper.as_mut(), 0, 0x3E);
    assert_eq!(ppu.ctrl, 0x3E);
    assert_eq!(ppu.vram_increment, 32);
    assert_eq!(ppu.sprite_pattern_table, 0x1000);
    assert_eq!(ppu.background_pattern_table, 0x1000);
    assert_eq!(ppu.sprite_size, 16);
    assert_eq!(ppu.t_addr, 0x0800);
}

#[test]
fn scroll_writes_fill_t_and_fine_x() {
    let (mut ppu, mut mapper) = make_ppu();
    ppu.cpu_write_reg(mapper.as_mut(), 5, 0x7D);
    assert_eq!(ppu.fine_x, 5);
    assert_eq!(ppu.t_addr, 0x000F);
    assert!(ppu.w_latch);
    ppu.cpu_write_reg(mapper.as_mut(), 5, 0x5E);
    assert_eq!(ppu.t_addr, 0x616F);
    assert!(!ppu.w_latch);
}

#[test]
fn ppudata_write_then_buffered_read() {
    let (mut ppu, mut mapper) = make_ppu();
    ppu.cpu_write_reg(mapper.as_mut(), 6, 0x21);
    ppu.cpu_write_reg(mapper.as_mut(), 6, 0x08);
    assert_eq!(ppu.v_addr, 0x2108);
    ppu.cpu_write_reg(mapper.as_mut(), 7, 0x55);
    assert_eq!(ppu.v_addr, 0x2109);
    ppu.cpu_write_reg(mapper.as_mut(), 6, 0x21);
    ppu.cpu_write_reg(mapper.as_mut(), 6, 0x08);
    let first = ppu.cpu_read_reg(mapper.as_mut(), 7, 0);
    let second = ppu.cpu_read_reg(mapper.as_mut(), 7, 0);
    assert_eq!(first, 0x00, "the first read returns the stale buffer");
    assert_eq!(second, 0x55);
}

#[test]
fn palette_backdrop_mirror() {
    let (mut ppu, mut mapper) = make_ppu();
    ppu.ppu_write(mapper.as_mut(), 0x3F10, 0xEA);
    assert_eq!(ppu.palette_ram[0], 0x2A, "$3F10 mirrors $3F00 and keeps six bits");
    assert_eq!(ppu.ppu_read(mapper.as_ref(), 0x3F00, false), 0x2A);
    ppu.ppu_write(mapper.as_mut(), 0x3F11, 0x05);
    assert_eq!(ppu.palette_ram[0x11], 0x05);
}

#[test]
fn oam_data_write_advances_address() {
    let (mut ppu, mut mapper) = make_ppu();
    ppu.cpu_write_reg(mapper.as_mut(), 3, 0x02);
    ppu.cpu_write_reg(mapper.as_mut(), 4, 0xFF);
    assert_eq!(ppu.oam[2], 0xFF);
    assert_eq!(ppu.oam_addr, 3);
    ppu.cpu_write_reg(mapper.as_mut(), 3, 0x02);
    assert_eq!(ppu.cpu_read_reg(mapper.as_mut(), 4, 0), 0xE3, "attribute bytes read back without bits 2-4");
}

#[test]
fn status_read_clears_vblank_and_latch() {
    let (mut ppu, mut mapper) = make_ppu();
    ppu.status = 0xC0;
    ppu.w_latch = true;
    let _ = ppu.cpu_read_reg(mapper.as_mut(), 2, 0);
    assert_eq!(ppu.status, 0x40);
    assert!(!ppu.w_latch);
}

#[test]
fn one_line_is_341_dots() {
    let (mut ppu, mut mapper) = make_ppu();
    ppu.step(mapper.as_mut(), 341);
    assert_eq!((ppu.scanline, ppu.cycle), (1, 0));
    assert_eq!(ppu.total_ppu_cycles, 341);
}

#[test]
fn vblank_rises_on_line_241_and_falls_on_261() {
    let (mut ppu, mut mapper) = make_ppu();
    ppu.cpu_write_reg(mapper.as_mut(), 0, 0x80);
    ppu.step(mapper.as_mut(), 241 * 341 + 1);
    assert!(!ppu.is_in_vblank());
    ppu.step(mapper.as_mut(), 1);
    assert!(ppu.is_in_vblank());
    assert!(ppu.is_nmi_line_asserted());
    ppu.step(mapper.as_mut(), 20 * 341);
    assert!(!ppu.is_in_vblank());
    assert!(!ppu.is_nmi_line_asserted());
}

#[test]
fn frame_wraps_after_262_lines() {
    let (mut ppu, mut mapper) = make_ppu();
    ppu.step(mapper.as_mut(), 262 * 341);
    assert_eq!((ppu.scanline, ppu.cycle), (0, 0));
}

#[test]
fn frame_is_published_with_backdrop_color() {
    let (mut ppu, mut mapper) = make_ppu();
    ppu.ppu_write(mapper.as_mut(), 0x3F00, 0x21);
    ppu.step(mapper.as_mut(), 240 * 341 + 1);
    assert!(ppu.take_frame_published());
    assert!(!ppu.take_frame_published());
    let front = ppu.get_front_buffer();
    assert_eq!(front.len(), 256 * 240 * 4);
    assert_eq!(&front[0..4], &[76, 154, 236, 255]);
    assert_eq!(&front[front.len() - 4..], &[76, 154, 236, 255]);
}

#[test]
fn catch_up_runs_three_dots_per_cpu_cycle() {
    let (mut ppu, mut mapper) = make_ppu();
    ppu.catch_up(mapper.as_mut(), 10);
    assert_eq!(ppu.total_ppu_cycles, 30);
    assert_eq!(ppu.cycle, 30);
    ppu.catch_up(mapper.as_mut(), 5);
    assert_eq!(ppu.total_ppu_cycles, 30, "already past the target");
}

#[test]
fn coarse_x_wraps_into_next_nametable() {
    let (mut ppu, _mapper) = make_ppu();
    ppu.v_addr = 0x001F;
    ppu.increment_horizontal_scroll();
    assert_eq!(ppu.v_addr, 0x0400);
    ppu.increment_horizontal_scroll();
    assert_eq!(ppu.v_addr, 0x0401);
}

#[test]
fn reset_clears_registers_and_dot() {
    let (mut ppu, mut mapper) = make_ppu();
    ppu.cpu_write_reg(mapper.as_mut(), 0, 0x80);
    ppu.step(mapper.as_mut(), 1000);
    ppu.reset();
    assert_eq!((ppu.ctrl, ppu.mask, ppu.status, ppu.scanline, ppu.cycle), (0, 0, 0, 0, 0));
}
