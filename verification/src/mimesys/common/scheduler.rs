use vstd::prelude::*;
use crate::mimesys::common::timed::Timed;

verus! {

/// Master-clock bookkeeping: the master cycle and the CPU's divider from it
/// (12 on the NES, 4 on the Game Boy).
pub struct Scheduler {
    master: u64,
    cpu_div: u32,
}

impl Scheduler {
    /// Brings the components up to `target_master`. The scheduler's own
    /// bookkeeping is left as it is.
    pub fn advance_to<T: Timed + ?Sized>(&mut self, target_master: u64, components: &mut T)
        ensures
            *final(self) == *old(self),
    {
        components.run_until(target_master);
    }
}

} // verus!
