use vstd::prelude::*;
use std::collections::VecDeque;

verus! {

/// How far a paused console runs when stepped (`Run`: no stepping).
#[derive(Clone, Copy, PartialEq, Eq, Structural)]
pub enum StepMode {
    Run,
    SingleInstruction,
    SingleFrame,
}

/// The debugger's view of a running console: pause and step state, an
/// optional PC breakpoint, and a ring of the most recent instructions.
pub struct DebugState {
    pub paused: bool,
    pub step_mode: StepMode,
    pub breakpoint_pc: Option<u16>,
    pub trace_ring: VecDeque<InstructionTraceEntry>,
}

/// One executed instruction: where, which opcode, the registers, and the
/// PPU position and cycle count at the time.
#[derive(Clone, Copy)]
pub struct InstructionTraceEntry {
    pub pc: u16,
    pub opcode: u8,
    pub a: u8,
    pub x: u8,
    pub y: u8,
    pub sp: u8,
    pub scanline: u16,
    pub cycle: u16,
    pub total_cycles: u64,
}

} // verus!
