pub mod cartridge;
pub mod mapper1;
pub mod mappers;
pub mod nes_apu;
pub mod nes_debug;
pub mod nes_ppu;
pub mod nes_rewind;
pub mod nes_system;
pub mod nes_bus;
