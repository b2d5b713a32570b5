pub mod common;
pub mod gameboy;
pub mod nes;
