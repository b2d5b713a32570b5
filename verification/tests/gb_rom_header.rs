use emucore::mimesys::gameboy::gb_mbc::make_mbc;
use emucore::mimesys::gameboy::gb_common::GbVariant;
use emucore::mimesys::gameboy::gb_system::{calculate_ram_size, determine_mbc, gb_pad_state, parse_gb_header};

fn rom(cgb: u8, cart_type: u8, rom_code: u8, ram_code: u8) -> Vec<u8> {
    let mut b = vec![0u8; 32768usize << rom_code];
    b[0x143] = cgb;
    b[0x147] = cart_type;
    b[0x148] = rom_code;
    b[0x149] = ram_code;
    b
}

#[test]
fn ram_sizes() {
    assert_eq!(calculate_ram_size(0), 0);
    assert_eq!(calculate_ram_size(1), 2048);
    assert_eq!(calculate_ram_size(2), 8192);
    assert_eq!(calculate_ram_size(3), 32768);
    assert_eq!(calculate_ram_size(4), 131072);
    assert_eq!(calculate_ram_size(5), 65536);
    assert_eq!(calculate_ram_size(6), 0);
}

#[test]
fn controller_codes() {
    let t = determine_mbc(0x03);
    assert_eq!((t.mbc_id, t.has_battery), (1, true));
    let t = determine_mbc(0x13);
    assert_eq!((t.mbc_id, t.has_battery), (3, true));
    let t = determine_mbc(0x1B);
    assert_eq!((t.mbc_id, t.has_battery), (5, true));
    let t = determine_mbc(0x06);
    assert_eq!((t.mbc_id, t.has_battery), (2, true));
    let t = determine_mbc(0x09);
    assert_eq!((t.mbc_id, t.has_battery), (0, true));
    let t = determine_mbc(0xFC);
    assert_eq!((t.mbc_id, t.has_battery), (0, false), "unknown codes fall back to a plain ROM");
}

#[test]
fn header_of_a_color_game() {
    let b = rom(0x80, 0x1B, 2, 3);
    let h = parse_gb_header(&b);
    assert_eq!(h.prg_rom_size, 131072);
    assert_eq!(h.cart_ram_size, 32768);
    assert_eq!(h.cart_type.mbc_id, 5);
    assert!(h.variant == GbVariant::Cgb);
    let b = rom(0xC0, 0, 0, 0);
    assert!(parse_gb_header(&b).variant == GbVariant::Cgb);
}

#[test]
fn header_of_a_monochrome_game() {
    let b = rom(0x00, 0x01, 1, 0);
    let h = parse_gb_header(&b);
    assert_eq!(h.prg_rom_size, 65536);
    assert_eq!(h.cart_ram_size, 0);
    assert!(h.variant == GbVariant::Dmg);
}

#[test]
fn joypad_bits() {
    assert_eq!(gb_pad_state(1 << 5), 0x01);
    assert_eq!(gb_pad_state(1 << 4), 0x02);
    assert_eq!(gb_pad_state(1 << 6), 0x04);
    assert_eq!(gb_pad_state(1 << 7), 0x08);
    assert_eq!(gb_pad_state(1 << 3), 0x10);
    assert_eq!(gb_pad_state(1 << 2), 0x20);
    assert_eq!(gb_pad_state(1 << 0), 0x40);
    assert_eq!(gb_pad_state(1 << 1), 0x80);
    assert_eq!(gb_pad_state(0xFF), 0xFF);
}

#[test]
fn unsupported_controller_message() {
    match make_mbc(4, vec![0; 32768], vec![]) {
        Err(e) => assert_eq!(e, "Mapper 4 not implemented yet"),
        Ok(_) => panic!("no controller 4"),
    }
    assert!(make_mbc(0, vec![0; 32768], vec![]).is_ok());
}
