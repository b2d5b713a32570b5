pub mod common;
pub mod gameboy;
