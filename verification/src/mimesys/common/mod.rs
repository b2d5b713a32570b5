pub mod timed;
pub mod scheduler;
pub mod z80;
