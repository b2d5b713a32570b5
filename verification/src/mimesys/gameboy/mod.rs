pub mod gb_bus;
pub mod gb_cartridge;
pub mod gb_common;
pub mod gb_cpu;
pub mod gb_dma;
pub mod gb_joypad;
pub mod gb_mbc;
pub mod gb_mbc0;
pub mod gb_mbc1;
pub mod gb_mbc2;
pub mod gb_mbc3;
pub mod gb_mbc5;
pub mod gb_mock_bus;
pub mod gb_palette;
pub mod gb_ppu;
pub mod gb_timer;
pub mod gb_system;
pub mod gb_apu;
