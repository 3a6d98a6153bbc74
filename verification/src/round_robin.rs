//! Round-robin scheduling policy: ready processes take turns, each with
//! the same preemptive timeslice.

use vstd::prelude::*;
use crate::kernel::{slot_inv, Kernel};
use crate::sched::{Scheduler, SchedulingDecision, StoppedExecutingReason};

verus! {

/// The timeslice a round-robin scheduler grants by default, in
/// microseconds.
pub const DEFAULT_TIMESLICE_US: u32 = 10000;

/// A round-robin scheduler over the kernel's process slots.
pub struct RoundRobinSched {
    /// Timeslice granted to each turn, in microseconds.
    pub timeslice_us: u32,
    /// Slot at which the next search for a ready process starts.
    pub next_index: usize,
    /// The most recent stop report, for policy decisions and inspection.
    pub last_result: Option<(StoppedExecutingReason, Option<u32>)>,
}

impl RoundRobinSched {
    /// A scheduler granting the default timeslice.
    pub fn new() -> (s: RoundRobinSched)
        ensures
            s.timeslice_us == DEFAULT_TIMESLICE_US,
            s.next_index == 0,
            s.last_result is None,
    {
        RoundRobinSched {
            timeslice_us: DEFAULT_TIMESLICE_US,
            next_index: 0,
            last_result: None,
        }
    }

    /// A scheduler granting the given timeslice.
    pub fn new_with_timeslice(timeslice_us: u32) -> (s: RoundRobinSched)
        ensures
            s.timeslice_us == timeslice_us,
            s.next_index == 0,
            s.last_result is None,
    {
        RoundRobinSched { timeslice_us, next_index: 0, last_result: None }
    }
}

impl Scheduler for RoundRobinSched {
    /// Offer the CPU to the next ready process after the previous turn,
    /// wrapping around the slot array, with this scheduler's timeslice.
    fn next(&mut self, kernel: &Kernel) -> (d: SchedulingDecision) {
        let n = kernel.processes.len();
        if n == 0 {
            return SchedulingDecision::TrySleep;
        }
        let start = self.next_index % n;
        let mut k: usize = 0;
        let mut idx = start;
        while k < n
            invariant
                kernel.wf(),
                n == kernel.processes@.len(),
                n > 0,
                k <= n,
                idx < n,
            decreases n - k,
        {
            match kernel.proc_ref(idx) {
                Some(p) => {
                    if p.ready() {
                        proof {
                            assert(slot_inv(kernel.processes@[idx as int], idx as int));
                        }
                        self.next_index = if idx + 1 == n {
                            0
                        } else {
                            idx + 1
                        };
                        return SchedulingDecision::RunProcess(
                            p.processid(),
                            Some(self.timeslice_us),
                        );
                    }
                },
                None => {},
            }
            idx = if idx + 1 == n {
                0
            } else {
                idx + 1
            };
            k = k + 1;
        }
        SchedulingDecision::TrySleep
    }

    /// Record the report for inspection and policy decisions.
    fn result(&mut self, result: StoppedExecutingReason, execution_time_us: Option<u32>)
        ensures
            final(self).last_result == Some((result, execution_time_us)),
    {
        self.last_result = Some((result, execution_time_us));
    }
}

} // verus!
