use emucore::mimesys::gameboy::gb_bus::{
    ack_irq_of, boot_rom_covers, cycle_len, get_wram_offset, hdma_control, hdma_register_written, hdma_status,
    irq_pending_of, next_hdma_dst, read_key1, serial_control_written, speed_switched, vram_offset, write_key1,
    HdmaCommand,
};

#[test]
fn work_ram_banks() {
    assert_eq!(get_wram_offset(0xC123, 5), 0x0123);
    assert_eq!(get_wram_offset(0xD123, 0), 0x1123);
    assert_eq!(get_wram_offset(0xD123, 1), 0x1123);
    assert_eq!(get_wram_offset(0xD123, 7), 0x7123);
    assert_eq!(get_wram_offset(0xF123, 3), 0x3123, "echo RAM follows the same banks");
}

#[test]
fn vram_bank_only_on_color() {
    assert_eq!(vram_offset(0x9ABC, true, 1), 0x3ABC);
    assert_eq!(vram_offset(0x9ABC, false, 1), 0x1ABC);
    assert_eq!(vram_offset(0x8000, true, 0), 0);
}

#[test]
fn speed_switch_toggles() {
    let k = write_key1(0x00, 0x01);
    assert_eq!(read_key1(k), 0x7F);
    let (k, double) = speed_switched(k);
    assert!(double);
    assert_eq!(k, 0x80);
    assert_eq!(cycle_len(double), 2);
    let (k, double) = speed_switched(write_key1(k, 0x01));
    assert!(!double);
    assert_eq!(k, 0x00);
    assert_eq!(cycle_len(double), 4);
}

#[test]
fn hdma_addresses() {
    let (src, dst) = hdma_register_written(0, 0, 0xFF51, 0xC1);
    let (src, dst) = hdma_register_written(src, dst, 0xFF52, 0x2F);
    let (src, dst) = hdma_register_written(src, dst, 0xFF53, 0xFF);
    let (src, dst) = hdma_register_written(src, dst, 0xFF54, 0x3F);
    assert_eq!(src, 0xC120);
    assert_eq!(dst, 0x9F30);
    assert_eq!(next_hdma_dst(0x9FFF), 0x8000);
    assert_eq!(next_hdma_dst(0x8010), 0x8011);
}

#[test]
fn hdma_control_and_status() {
    assert!(hdma_control(false, 0x85) == HdmaCommand::StartHdma(6));
    assert!(hdma_control(false, 0x05) == HdmaCommand::RunGdma(6));
    assert!(hdma_control(true, 0x05) == HdmaCommand::Stop);
    assert_eq!(hdma_status(false, 3), 0xFF);
    assert_eq!(hdma_status(true, 3), 2);
    assert_eq!(hdma_status(true, 0), 0);
}

#[test]
fn boot_rom_window() {
    assert!(boot_rom_covers(false, 0x00FF, 256));
    assert!(!boot_rom_covers(false, 0x0200, 2304));
    assert!(boot_rom_covers(true, 0x0200, 2304));
    assert!(!boot_rom_covers(true, 0x0100, 2304));
    assert!(!boot_rom_covers(true, 0x0200, 256));
}

#[test]
fn serial_transfer_completes_at_once() {
    assert_eq!(serial_control_written(0x81, 0x42), (0x01, 0xFF, true));
    assert_eq!(serial_control_written(0x01, 0x42), (0x01, 0x42, false));
}

#[test]
fn interrupt_flags() {
    assert_eq!(irq_pending_of(0xFF, 0xE5), 0x05);
    assert_eq!(ack_irq_of(0x05, 2), 0x01);
}
