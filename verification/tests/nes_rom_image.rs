use emucore::gd_emu::nes::mappers::make_mapper;
use emucore::gd_emu::nes::mappers::Mirroring;
use emucore::gd_emu::nes::nes_system::{cartridge_from_image, nes_pad_state, parse_ines};

fn image(prg_pages: u8, chr_pages: u8, flags6: u8, flags7: u8, byte8: u8) -> Vec<u8> {
    let mut b = vec![0x4E, 0x45, 0x53, 0x1A, prg_pages, chr_pages, flags6, flags7, byte8, 0, 0, 0, 0, 0, 0, 0];
    for i in 0..(prg_pages as usize * 16384) {
        b.push((i % 251) as u8);
    }
    for i in 0..(chr_pages as usize * 8192) {
        b.push((i % 13) as u8);
    }
    b
}

#[test]
fn rejects_missing_magic() {
    let mut b = image(1, 1, 0, 0, 0);
    b[3] = 0x1B;
    assert!(parse_ines(&b).is_none());
    assert!(parse_ines(&[0x4E, 0x45, 0x53]).is_none());
}

#[test]
fn ines1_header_fields() {
    let b = image(2, 1, 0x11, 0x00, 0xFF);
    let img = parse_ines(&b).unwrap();
    assert_eq!(img.mapper_id, 1);
    assert!(!img.is_v2);
    assert_eq!(img.submapper, 0x0F);
    assert!(img.mirroring == Mirroring::Vertical);
    assert!(!img.four_screen);
    assert_eq!(img.prg_rom.len(), 32768);
    assert_eq!(img.chr_rom.len(), 8192);
    assert_eq!(img.prg_banks, 2);
    assert_eq!(img.chr_banks, 1);
    assert_eq!(img.prg_rom[0], b[16]);
    assert_eq!(img.chr_rom[5], 5);
}

#[test]
fn ines2_mapper_number_uses_byte_8() {
    let b = image(1, 0, 0x48, 0x08, 0x31);
    let img = parse_ines(&b).unwrap();
    assert!(img.is_v2);
    assert_eq!(img.mapper_id, 0x104);
    assert_eq!(img.submapper, 3);
    assert!(img.four_screen);
    assert!(img.mirroring == Mirroring::Horizontal);
    assert!(img.chr_rom.is_empty());
}

#[test]
fn dxrom_uses_small_banks() {
    let b = image(2, 1, 0xE0, 0xC0, 0);
    let img = parse_ines(&b).unwrap();
    assert_eq!(img.mapper_id, 206);
    assert_eq!(img.prg_banks, 4);
    assert_eq!(img.chr_banks, 8);
}

#[test]
fn cartridge_only_for_supported_boards() {
    let img = parse_ines(&image(1, 1, 0x00, 0x00, 0)).unwrap();
    let cart = cartridge_from_image(img, "game".to_string()).unwrap();
    assert_eq!(cart.prg_rom.len(), 16384);
    assert_eq!(cart.base_filename, "game");
    let img = parse_ines(&image(1, 1, 0x30, 0x00, 0)).unwrap();
    assert_eq!(img.mapper_id, 3);
    assert!(cartridge_from_image(img, "game".to_string()).is_none());
}

#[test]
fn pad_state_remaps_buttons() {
    assert_eq!(nes_pad_state(0), 0);
    assert_eq!(nes_pad_state(1 << 5), 0x01);
    assert_eq!(nes_pad_state(1 << 4), 0x02);
    assert_eq!(nes_pad_state(1 << 6), 0x04);
    assert_eq!(nes_pad_state(1 << 7), 0x08);
    assert_eq!(nes_pad_state(1 << 0), 0x10);
    assert_eq!(nes_pad_state(1 << 1), 0x20);
    assert_eq!(nes_pad_state(1 << 2), 0x40);
    assert_eq!(nes_pad_state(1 << 3), 0x80);
    assert_eq!(nes_pad_state(0xFFFF), 0xFF);
    assert_eq!(nes_pad_state(0xFF00), 0x00);
}

#[test]
fn unsupported_board_message() {
    match make_mapper(4, 0, 1, 1, vec![0; 16384], vec![0; 8192], Mirroring::Horizontal, false) {
        Err(e) => assert_eq!(e, "Mapper 4 not implemented yet"),
        Ok(_) => panic!("MMC3 has no board here"),
    }
    match make_mapper(1023, 0, 1, 1, vec![0; 16384], vec![0; 8192], Mirroring::Horizontal, false) {
        Err(e) => assert_eq!(e, "Mapper 1023 not implemented yet"),
        Ok(_) => panic!("no such board"),
    }
}
