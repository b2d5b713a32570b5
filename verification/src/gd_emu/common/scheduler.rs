use vstd::prelude::*;

verus! {

/// Master-clock bookkeeping: the master cycle and the CPU's divider from it
/// (12 on the NES, 4 on the Game Boy).
pub struct Scheduler {
    pub master: u64,
    pub cpu_div: u32,
}

} // verus!
