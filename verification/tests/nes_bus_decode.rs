use emucore::gd_emu::nes::nes_bus::{
    apu_status_read, dma_start, dma_step, pad_read, pad_write, read_target, write_target, DmaStep, ReadTarget,
    WriteTarget,
};

#[test]
fn ram_and_ppu_mirrors() {
    assert!(read_target(0x0801) == ReadTarget::Ram(1));
    assert!(read_target(0x1FFF) == ReadTarget::Ram(0x7FF));
    assert!(read_target(0x2002) == ReadTarget::PpuRegister(2));
    assert!(read_target(0x3FFA) == ReadTarget::PpuRegister(2));
    assert!(write_target(0x1000) == WriteTarget::Ram(0));
    assert!(write_target(0x2FFF) == WriteTarget::PpuRegister(7));
}

#[test]
fn io_registers() {
    assert!(read_target(0x4015) == ReadTarget::ApuStatus);
    assert!(read_target(0x4016) == ReadTarget::Controller1);
    assert!(read_target(0x4000) == ReadTarget::OpenBus);
    assert!(read_target(0x4017) == ReadTarget::OpenBus);
    assert!(read_target(0x4020) == ReadTarget::Cartridge);
    assert!(write_target(0x4014) == WriteTarget::OamDma);
    assert!(write_target(0x4016) == WriteTarget::Controller);
    assert!(write_target(0x4017) == WriteTarget::Apu);
    assert!(write_target(0x4015) == WriteTarget::Apu);
    assert!(write_target(0x8000) == WriteTarget::Cartridge);
}

#[test]
fn apu_status_keeps_bit_5_floating() {
    assert_eq!(apu_status_read(0x41, 0xFF), 0x61);
    assert_eq!(apu_status_read(0x41, 0xDF), 0x41);
}

#[test]
fn controller_shifts_out_buttons_then_ones() {
    let state = 0b1010_0110u8;
    let (strobe, mut shift) = pad_write(1, state, 0);
    assert!(strobe);
    let (strobe, shift2) = pad_write(0, 0x00, shift);
    assert!(!strobe);
    shift = shift2;
    let mut bits = Vec::new();
    for _ in 0..10 {
        let (v, next) = pad_read(shift, false, 0x40);
        bits.push(v);
        shift = next;
    }
    assert_eq!(bits, vec![0x40, 0x41, 0x41, 0x40, 0x40, 0x41, 0x40, 0x41, 0x41, 0x41]);
}

#[test]
fn controller_does_not_shift_while_strobed() {
    let (v, next) = pad_read(0x01, true, 0x00);
    assert_eq!((v, next), (0x01, 0x01));
}

#[test]
fn dma_length_depends_on_cycle_parity() {
    assert_eq!(dma_start(0x02, 10), (0x0200, 513));
    assert_eq!(dma_start(0x07, 11), (0x0700, 514));
}

#[test]
fn dma_reads_then_writes_each_byte() {
    assert!(dma_step(0) == DmaStep::Idle);
    assert!(dma_step(514) == DmaStep::Halt);
    assert!(dma_step(513) == DmaStep::Halt);
    assert!(dma_step(512) == DmaStep::Read(0));
    assert!(dma_step(511) == DmaStep::Write);
    assert!(dma_step(2) == DmaStep::Read(255));
    assert!(dma_step(1) == DmaStep::Write);
}
