//! Grants: typed per-process, per-driver storage slots.
//!
//! A grant gives a driver one `T` slot for every process slot in the
//! kernel, without dynamic allocation.  A slot is tagged with the
//! generation identifier of the process that last wrote it, so a slot
//! whose process died and whose array position was reused reads as fresh.
//! Driver state is a plain copyable value here, so the enter protocol
//! reduces to copying the value out, updating it, and writing it back;
//! there is consequently no reentrancy hazard to guard against.
//!
//! Grants must all be created before processes are loaded: loading reads
//! `get_grant_count_and_finalize`, and creating a grant afterwards is
//! ruled out (the kernel's memory layouts are already fixed).

use vstd::prelude::*;
use crate::capabilities::MemoryAllocationCapability;
use crate::errorcode::ErrorCode;
use crate::kernel::{pid_valid, Kernel};
use crate::process::ProcessId;

verus! {

/// One process slot's view of a grant.
#[derive(Clone, Copy, Debug, PartialEq, Eq)]
pub struct GrantSlot<T> {
    /// Generation identifier of the process this value belongs to.
    pub owner_id: usize,
    /// The stored driver state, once the driver first wrote it.
    pub value: Option<T>,
}

/// A typed allocation token: one `T` per process.
pub struct Grant<T> {
    /// Position of this grant in the kernel-wide grant layout.
    pub grant_index: usize,
    /// One entry per kernel process slot.
    pub slots: Vec<GrantSlot<T>>,
}

/// The value a driver reads for `pid`: what it last stored for this
/// generation, or the given default for a fresh (or reused) slot.
pub open spec fn spec_grant_value<T>(g: Grant<T>, pid: ProcessId, default: T) -> T {
    if g.slots@[pid.index as int].owner_id == pid.id && g.slots@[pid.index as int].value
        is Some {
        g.slots@[pid.index as int].value->Some_0
    } else {
        default
    }
}

/// Whether a grant access for `pid` succeeds against `k`: the slot must
/// still hold a live (not faulted or terminated) process of the same
/// generation.
pub open spec fn grant_access_ok<T>(g: Grant<T>, k: Kernel, pid: ProcessId) -> bool {
    &&& pid_valid(k, pid)
    &&& k.proc_at(pid.index as int).spec_active()
    &&& (pid.index as int) < g.slots@.len()
}

impl<T: Copy> Grant<T> {
    /// Number of process slots this grant covers.
    pub fn num_slots(&self) -> (n: usize)
        ensures
            n == self.slots@.len(),
    {
        self.slots.len()
    }

    /// Whether the grant can be entered for `pid`: the process must
    /// still exist, in the same generation, and not have died.
    fn access_ok(&self, pid: ProcessId, kernel: &Kernel) -> (r: bool)
        ensures
            r == grant_access_ok(*self, *kernel, pid),
    {
        if pid.index >= self.slots.len() {
            return false;
        }
        match kernel.proc_ref(pid.index) {
            Some(p) => p.identifier == pid.id && p.is_active(),
            None => false,
        }
    }

    /// Enter the grant for reading: the value stored for `pid`, or
    /// `default` if this process generation never stored one.  Fails when
    /// the process is gone.
    pub fn enter_get(&self, pid: ProcessId, kernel: &Kernel, default: T) -> (r: Result<
        T,
        ErrorCode,
    >)
        ensures
            r == if grant_access_ok(*self, *kernel, pid) {
                Ok::<T, ErrorCode>(spec_grant_value(*self, pid, default))
            } else {
                Err::<T, ErrorCode>(ErrorCode::NOMEM)
            },
    {
        if !self.access_ok(pid, kernel) {
            return Err(ErrorCode::NOMEM);
        }
        let slot = &self.slots[pid.index];
        if slot.owner_id == pid.id {
            match slot.value {
                Some(v) => Ok(v),
                None => Ok(default),
            }
        } else {
            Ok(default)
        }
    }

    /// Enter the grant for writing: store `value` for `pid`'s generation.
    /// Fails when the process is gone.
    pub fn enter_put(&mut self, pid: ProcessId, kernel: &Kernel, value: T) -> (r: Result<
        (),
        ErrorCode,
    >)
        ensures
            r == if grant_access_ok(*old(self), *kernel, pid) {
                Ok::<(), ErrorCode>(())
            } else {
                Err::<(), ErrorCode>(ErrorCode::NOMEM)
            },
            r is Ok ==> {
                &&& final(self).grant_index == old(self).grant_index
                &&& final(self).slots@ == old(self).slots@.update(
                    pid.index as int,
                    GrantSlot { owner_id: pid.id, value: Some(value) },
                )
            },
            r is Err ==> *final(self) == *old(self),
    {
        if !self.access_ok(pid, kernel) {
            return Err(ErrorCode::NOMEM);
        }
        self.slots.set(pid.index, GrantSlot { owner_id: pid.id, value: Some(value) });
        Ok(())
    }

    /// One step of iterating every live process's grant entry: the
    /// process in kernel slot `i` together with its stored value (or
    /// `default`), or `None` for an empty or out-of-range slot.
    pub fn entry_at(&self, i: usize, kernel: &Kernel, default: T) -> (r: Option<(ProcessId, T)>)
        requires
            kernel.wf(),
        ensures
            r == if kernel.live_at(i as int) && kernel.proc_at(i as int).spec_active() && (
            i as int) < self.slots@.len() {
                Some(
                    (
                        kernel.proc_at(i as int).spec_processid(),
                        spec_grant_value(
                            *self,
                            kernel.proc_at(i as int).spec_processid(),
                            default,
                        ),
                    ),
                )
            } else {
                None::<(ProcessId, T)>
            },
    {
        if i >= self.slots.len() {
            return None;
        }
        match kernel.proc_ref(i) {
            Some(p) if p.is_active() => {
                let pid = p.processid();
                let slot = &self.slots[i];
                if slot.owner_id == pid.id {
                    match slot.value {
                        Some(v) => Some((pid, v)),
                        None => Some((pid, default)),
                    }
                } else {
                    Some((pid, default))
                }
            },
            _ => None,
        }
    }
}

impl Kernel {
    /// Create a new grant during board initialisation.  Grants must only
    /// be created before processes are loaded; once the grant count was
    /// read and finalized, creating another is a kernel-invariant
    /// violation, which this interface rules out up front.
    pub fn create_grant<T>(&mut self, _capability: &MemoryAllocationCapability) -> (g: Grant<T>)
        requires
            !old(self).grants_finalized,
            old(self).grant_counter < usize::MAX,
        ensures
            g.grant_index == old(self).grant_counter,
            g.slots@.len() == old(self).processes@.len(),
            forall|i: int| 0 <= i < g.slots@.len() ==> (#[trigger] g.slots@[i]).value is None,
            *final(self) == (Kernel {
                grant_counter: (old(self).grant_counter + 1) as usize,
                ..*old(self)
            }),
    {
        let grant_index = self.grant_counter;
        self.grant_counter = self.grant_counter + 1;
        let n = self.processes.len();
        let mut slots: Vec<GrantSlot<T>> = Vec::new();
        let mut i: usize = 0;
        while i < n
            invariant
                i <= n,
                slots@.len() == i,
                forall|j: int| 0 <= j < i ==> (#[trigger] slots@[j]).value is None,
            decreases n - i,
        {
            slots.push(GrantSlot { owner_id: 0, value: None });
            i = i + 1;
        }
        Grant { grant_index, slots }
    }
}

} // verus!
