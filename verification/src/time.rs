use vstd::prelude::*;

verus! {

/// How long a DEVS model stays in its current state before an internal event,
/// measured in nanoseconds of simulated time.
///
/// `Infinite` marks a passive model: it only leaves its state when an input arrives.
#[derive(Clone, Copy, Debug, PartialEq, Eq, Structural)]
pub enum TimeAdvance {
    Finite(u64),
    Infinite,
}

impl TimeAdvance {
    /// An elapsed time `e` that the simulator may hand to an external transition:
    /// external events never arrive later than the scheduled internal event.
    pub open spec fn admits(self, e: u64) -> bool {
        match self {
            TimeAdvance::Finite(t) => e <= t,
            TimeAdvance::Infinite => true,
        }
    }
}

} // verus!
