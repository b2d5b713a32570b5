pub mod bus;
pub mod m6502;
pub mod m6502i;
pub mod scheduler;
pub mod sys_display;
