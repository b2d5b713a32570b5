pub mod bits;
pub mod gd_emu;
pub mod mimesys;
