use vstd::prelude::*;

verus! {

/// A component driven by the master clock. `run_until` brings it up to the
/// given master cycle; `sync_point` reports the last cycle it was brought to.
pub trait Timed {
    fn run_until(&mut self, target_master: u64);

    fn sync_point(&self) -> u64;
}

} // verus!
