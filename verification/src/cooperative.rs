//! Cooperative scheduling policy: processes run without a timeslice
//! until they have no work left, and slots are offered the CPU in array
//! order.

use vstd::prelude::*;
use crate::kernel::{slot_inv, Kernel};
use crate::sched::{Scheduler, SchedulingDecision, StoppedExecutingReason};

verus! {

/// A cooperative scheduler: the first ready process runs, with no
/// preemption timer.
pub struct CooperativeSched {
    /// The most recent stop report, for policy decisions and inspection.
    pub last_result: Option<(StoppedExecutingReason, Option<u32>)>,
}

impl CooperativeSched {
    pub fn new() -> (s: CooperativeSched)
        ensures
            s.last_result is None,
    {
        CooperativeSched { last_result: None }
    }
}

impl Scheduler for CooperativeSched {
    /// Offer the CPU to the first ready process, cooperatively.
    fn next(&mut self, kernel: &Kernel) -> (d: SchedulingDecision) {
        let n = kernel.processes.len();
        let mut i: usize = 0;
        while i < n
            invariant
                kernel.wf(),
                n == kernel.processes@.len(),
                i <= n,
            decreases n - i,
        {
            match kernel.proc_ref(i) {
                Some(p) => {
                    if p.ready() {
                        proof {
                            assert(slot_inv(kernel.processes@[i as int], i as int));
                        }
                        return SchedulingDecision::RunProcess(p.processid(), None);
                    }
                },
                None => {},
            }
            i = i + 1;
        }
        SchedulingDecision::TrySleep
    }

    /// Record the report for inspection and policy decisions.
    fn result(&mut self, result: StoppedExecutingReason, execution_time_us: Option<u32>)
        ensures
            final(self).last_result == Some((result, execution_time_us)),
    {
        self.last_result = Some((result, execution_time_us));
    }
}

} // verus!
