use emucore::gd_emu::nes::cartridge::Cartridge;
use emucore::gd_emu::nes::mapper1::Mapper1;
use emucore::gd_emu::nes::mappers::mapper0::Mapper0;
use emucore::gd_emu::nes::mappers::Mirroring;

#[test]
fn mmc1_cartridge_takes_battery_image_of_its_size() {
    let board = Mapper1::new(2, 0, vec![0; 32768], vec![], Mirroring::Vertical, false);
    let mut cart = Cartridge::new(vec![0; 32768], vec![], Box::new(board), "game".to_string());
    assert!(cart.get_sram().unwrap().iter().all(|b| *b == 0));
    cart.load_sram(&[7u8; 8192]);
    assert_eq!(cart.get_sram().unwrap()[100], 7);
    cart.load_sram(&[9u8; 16]);
    assert_eq!(cart.get_sram().unwrap()[0], 7);
    assert!(!cart.is_sram_dirty());
}

#[test]
fn nrom_cartridge_has_no_battery_ram() {
    let board = Mapper0::new(2, 1, vec![0; 32768], vec![0; 8192], Mirroring::Vertical);
    let mut cart = Cartridge::new(vec![0; 32768], vec![0; 8192], Box::new(board), "game".to_string());
    assert!(cart.get_sram().is_none());
    cart.load_sram(&[1u8; 8192]);
    assert!(cart.get_sram().is_none());
    assert!(!cart.is_sram_dirty());
}
