//! The main kernel object: the fixed process array, the work counter,
//! generation and grant bookkeeping, and the state-transition primitives
//! that the scheduling substrate and the drivers build on.
//!
//! The central invariant ([`Kernel::wf`]) ties the `work` counter to the
//! processes: at every quiescent point `work` equals the number of
//! processes in the `Running` state plus the total number of queued
//! tasks, and a faulted or terminated process never has queued tasks.

use vstd::prelude::*;
use crate::capabilities::{ExternalProcessCapability, ProcessManagementCapability};
use crate::process::{Process, ProcessId, ProcessSlice, State};
use crate::syscall::SyscallReturn;
use crate::upcall::{
    without_upcalls, FunctionCall, FunctionCallSource, Task, Upcall,
    UpcallId,
};

verus! {

/// Upper bound on the number of process slots a board can configure.
pub const MAX_SLOTS: usize = 512;

/// Capacity of each process's task queue.
pub const TASK_QUEUE_SIZE: usize = 10;

/// Main object for the kernel. Each board creates exactly one.
pub struct Kernel {
    /// How many "to-do" items exist at any given time: outstanding tasks
    /// plus processes in the `Running` state.
    pub work: usize,
    /// The fixed array of process slots.
    pub processes: Vec<Option<Process>>,
    /// Generation counter for process identifiers.
    pub process_identifier_max: usize,
    /// How many grant regions have been set up.
    pub grant_counter: usize,
    /// One-way flag: set once processes were loaded and grant layout froze.
    pub grants_finalized: bool,
}

/// The work one slot contributes: queued tasks plus one for a process
/// holding (or ready to resume holding) the CPU.
pub open spec fn slot_work(s: Option<Process>) -> nat {
    match s {
        None => 0,
        Some(p) => p.tasks@.len() + if p.state == State::Running {
            1nat
        } else {
            0nat
        },
    }
}

/// Total work across the process array.
pub open spec fn total_work(s: Seq<Option<Process>>) -> nat
    decreases s.len(),
{
    if s.len() == 0 {
        0
    } else {
        slot_work(s[0]) + total_work(s.drop_first())
    }
}

/// Per-slot well-formedness: a process sits in its own slot, its queue
/// respects the capacity, and a dead process has no queued tasks.
pub open spec fn slot_inv(s: Option<Process>, i: int) -> bool {
    match s {
        None => true,
        Some(p) => {
            &&& p.slot_index == i
            &&& p.tasks@.len() <= TASK_QUEUE_SIZE
            &&& (!p.spec_active() ==> p.tasks@.len() == 0)
        },
    }
}

/// The process slot `pid` refers to still holds a process of the same
/// generation.
pub open spec fn pid_valid(k: Kernel, pid: ProcessId) -> bool {
    &&& (pid.index as int) < k.processes@.len()
    &&& k.processes@[pid.index as int] matches Some(p) && p.identifier == pid.id
}

/// The bookkeeping counters a process-state transition never touches.
pub open spec fn counters_unchanged(pre: Kernel, post: Kernel) -> bool {
    &&& post.process_identifier_max == pre.process_identifier_max
    &&& post.grant_counter == pre.grant_counter
    &&& post.grants_finalized == pre.grants_finalized
}

/// What a driver may do to the kernel while servicing a call: schedule
/// upcalls (append function-call tasks to live processes) and nothing
/// else.
pub open spec fn driver_step(pre: Kernel, post: Kernel) -> bool {
    &&& post.processes@.len() == pre.processes@.len()
    &&& counters_unchanged(pre, post)
    &&& (pre.wf() ==> post.wf())
    &&& forall|j: int|
        0 <= j < pre.processes@.len() ==> slot_driver_step(
            #[trigger] pre.processes@[j],
            post.processes@[j],
        )
}

/// Per-slot part of [`driver_step`]: the process itself is untouched and
/// its task queue only grows by appended function calls.
pub open spec fn slot_driver_step(a: Option<Process>, b: Option<Process>) -> bool {
    match (a, b) {
        (None, None) => true,
        (Some(p), Some(q)) => {
            &&& q == (Process { tasks: q.tasks, ..p })
            &&& p.tasks@.len() <= q.tasks@.len()
            &&& p.tasks@ =~= q.tasks@.take(p.tasks@.len() as int)
            &&& forall|t: int| p.tasks@.len() <= t < q.tasks@.len() ==> q.tasks@[t] is FunctionCall
        },
        _ => false,
    }
}

/// No IPC notification is queued on this slot.
pub open spec fn slot_ipc_zero(s: Option<Process>) -> bool {
    match s {
        None => true,
        Some(p) => crate::upcall::ipc_task_count(p.tasks@) == 0,
    }
}

/// No IPC notification is queued anywhere.  A kernel that runs without
/// an IPC module must stay in this state, because dequeuing an IPC task
/// with no module to hand it to is a kernel consistency violation.
pub open spec fn kernel_no_ipc_tasks(k: Kernel) -> bool {
    forall|i: int| 0 <= i < k.processes@.len() ==> slot_ipc_zero(#[trigger] k.processes@[i])
}

/// What scheduling one upcall does to the kernel: the target process's
/// queue gains the function-call task when the upcall is deliverable
/// (non-null, live and active target of the right generation, queue not
/// full); otherwise nothing changes.
pub open spec fn spec_upcall_scheduled(
    pre: Kernel,
    post: Kernel,
    up: Upcall,
    r0: usize,
    r1: usize,
    r2: usize,
) -> bool {
    let i = up.process_id.index as int;
    if up.fn_ptr != 0 && pid_valid(pre, up.process_id) && pre.proc_at(i).spec_active()
        && pre.proc_at(i).tasks@.len() < TASK_QUEUE_SIZE {
        &&& post.processes@ == pre.processes@.update(
            i,
            Some(Process { tasks: post.proc_at(i).tasks, ..pre.proc_at(i) }),
        )
        &&& post.proc_at(i).tasks@ == pre.proc_at(i).tasks@.push(
            Task::FunctionCall(
                FunctionCall {
                    source: FunctionCallSource::Driver(up.upcall_id),
                    pc: up.fn_ptr,
                    argument0: r0,
                    argument1: r1,
                    argument2: r2,
                    argument3: up.appdata,
                },
            ),
        )
        &&& post.work == pre.work + 1
    } else {
        post.processes@ == pre.processes@ && post.work == pre.work
    }
}

/// Per-slot effect of faulting every app: the process is `Faulted` with
/// an emptied task queue; empty slots stay empty.
pub open spec fn slot_faulted(a: Option<Process>, b: Option<Process>) -> bool {
    match (a, b) {
        (None, None) => true,
        (Some(p), Some(q)) => {
            &&& q == (Process { state: State::Faulted, tasks: q.tasks, ..p })
            &&& q.tasks@.len() == 0
        },
        _ => false,
    }
}

/// Updating one slot trades its old contribution for the new one.
pub proof fn lemma_total_work_update(s: Seq<Option<Process>>, i: int, v: Option<Process>)
    requires
        0 <= i < s.len(),
    ensures
        total_work(s.update(i, v)) + slot_work(s[i]) == total_work(s) + slot_work(v),
    decreases s.len(),
{
    if i == 0 {
        assert(s.update(0, v).drop_first() =~= s.drop_first());
        assert(s.update(0, v)[0] == v);
    } else {
        assert(s.update(i, v)[0] == s[0]);
        assert(s.update(i, v).drop_first() =~= s.drop_first().update(i - 1, v));
        lemma_total_work_update(s.drop_first(), i - 1, v);
    }
}

/// Each slot contributes no more than the total.
pub proof fn lemma_slot_work_le_total(s: Seq<Option<Process>>, i: int)
    requires
        0 <= i < s.len(),
    ensures
        slot_work(s[i]) <= total_work(s),
    decreases s.len(),
{
    if i > 0 {
        lemma_slot_work_le_total(s.drop_first(), i - 1);
        assert(s.drop_first()[i - 1] == s[i]);
    }
}

/// With every slot bounded, the total is bounded by slots times bound.
pub proof fn lemma_total_work_bounded(s: Seq<Option<Process>>)
    requires
        forall|i: int| 0 <= i < s.len() ==> slot_work(#[trigger] s[i]) <= TASK_QUEUE_SIZE + 1,
    ensures
        total_work(s) <= s.len() * (TASK_QUEUE_SIZE + 1),
    decreases s.len(),
{
    if s.len() > 0 {
        assert(forall|i: int|
            0 <= i < s.drop_first().len() ==> #[trigger] s.drop_first()[i] == s[i + 1]);
        lemma_total_work_bounded(s.drop_first());
        assert(slot_work(s[0]) <= TASK_QUEUE_SIZE + 1);
        assert((s.len() - 1) * (TASK_QUEUE_SIZE + 1) + (TASK_QUEUE_SIZE + 1) == s.len() * (
        TASK_QUEUE_SIZE + 1)) by (nonlinear_arith);
    }
}

impl Kernel {
    /// The well-formedness invariant every kernel operation preserves.
    pub open spec fn wf(&self) -> bool {
        &&& self.processes@.len() <= MAX_SLOTS
        &&& self.work == total_work(self.processes@)
        &&& forall|i: int|
            0 <= i < self.processes@.len() ==> slot_inv(#[trigger] self.processes@[i], i)
    }

    /// The process at slot `i`, which must exist.
    pub open spec fn proc_at(&self, i: int) -> Process {
        self.processes@[i]->Some_0
    }

    /// Slot `i` holds a process.
    pub open spec fn live_at(&self, i: int) -> bool {
        0 <= i < self.processes@.len() && self.processes@[i] is Some
    }

    /// Create the kernel around the board's process array.  Processes are
    /// loaded at boot before anything runs, so none is `Running` and no
    /// tasks are queued yet.
    pub fn new(processes: Vec<Option<Process>>) -> (k: Kernel)
        requires
            processes@.len() <= MAX_SLOTS,
            forall|i: int|
                0 <= i < processes@.len() ==> (#[trigger] processes@[i] matches Some(p) ==> {
                    &&& p.slot_index == i
                    &&& p.tasks@.len() == 0
                    &&& p.state != State::Running
                }),
        ensures
            k.wf(),
            k.processes@ == processes@,
            k.work == 0,
            k.process_identifier_max == 0,
            k.grant_counter == 0,
            !k.grants_finalized,
    {
        proof {
            lemma_total_work_zero_of_idle(processes@);
        }
        Kernel {
            work: 0,
            processes,
            process_identifier_max: 0,
            grant_counter: 0,
            grants_finalized: false,
        }
    }

    /// Raw work-counter increment for external process implementations.
    /// The caller is responsible for the matching state change.
    pub fn increment_work(&mut self)
        requires
            old(self).work < usize::MAX,
        ensures
            *final(self) == (Kernel { work: (old(self).work + 1) as usize, ..*old(self) }),
    {
        self.work = self.work + 1;
    }

    /// Capability-gated wrapper around [`Self::increment_work`].
    pub fn increment_work_external(&mut self, _capability: &ExternalProcessCapability)
        requires
            old(self).work < usize::MAX,
        ensures
            *final(self) == (Kernel { work: (old(self).work + 1) as usize, ..*old(self) }),
    {
        self.increment_work();
    }

    /// Raw work-counter decrement for external process implementations.
    pub fn decrement_work(&mut self)
        requires
            old(self).work > 0,
        ensures
            *final(self) == (Kernel { work: (old(self).work - 1) as usize, ..*old(self) }),
    {
        self.work = self.work - 1;
    }

    /// Capability-gated wrapper around [`Self::decrement_work`].
    pub fn decrement_work_external(&mut self, _capability: &ExternalProcessCapability)
        requires
            old(self).work > 0,
        ensures
            *final(self) == (Kernel { work: (old(self).work - 1) as usize, ..*old(self) }),
    {
        self.decrement_work();
    }

    /// Whether no process has anything to do, i.e. sleep may be considered.
    pub fn processes_blocked(&self) -> (r: bool)
        ensures
            r == (self.work == 0),
    {
        self.work == 0
    }

    /// Shared reference to the process in slot `idx`, if one exists.
    pub fn proc_ref(&self, idx: usize) -> (r: Option<&Process>)
        ensures
            match r {
                Some(p) => self.live_at(idx as int) && *p == self.proc_at(idx as int),
                None => !self.live_at(idx as int),
            },
    {
        if idx < self.processes.len() {
            self.processes[idx].as_ref()
        } else {
            None
        }
    }

    /// Exclusive reference to the process in slot `idx`, which must exist.
    pub(crate) fn proc_mut(&mut self, idx: usize) -> (p: &mut Process)
        requires
            (idx as int) < old(self).processes@.len(),
            old(self).processes@[idx as int] is Some,
        ensures
            *p == old(self).proc_at(idx as int),
            final(self).processes@ == old(self).processes@.update(idx as int, Some(*final(p))),
            final(self).work == old(self).work,
            counters_unchanged(*old(self), *final(self)),
    {
        let slot = &mut self.processes[idx];
        match slot {
            Some(p) => p,
            None => vstd::pervasive::unreached(),
        }
    }

    /// Look up the full `ProcessId` of the app with the given identifier.
    pub fn lookup_app_by_identifier(&self, identifier: usize) -> (r: Option<ProcessId>)
        requires
            self.wf(),
        ensures
            match r {
                Some(pid) => {
                    &&& self.live_at(pid.index as int)
                    &&& self.proc_at(pid.index as int).identifier == identifier
                    &&& pid == self.proc_at(pid.index as int).spec_processid()
                    &&& forall|j: int|
                        0 <= j < pid.index ==> !(#[trigger] self.processes@[j] matches Some(p)
                            && p.identifier == identifier)
                },
                None => forall|j: int|
                    0 <= j < self.processes@.len() ==> !(#[trigger] self.processes@[j] matches Some(
                        p,
                    ) && p.identifier == identifier),
            },
    {
        let n = self.processes.len();
        let mut i: usize = 0;
        while i < n
            invariant
                self.wf(),
                n == self.processes@.len(),
                i <= n,
                forall|j: int|
                    0 <= j < i ==> !(#[trigger] self.processes@[j] matches Some(p) && p.identifier
                        == identifier),
            decreases n - i,
        {
            match self.processes[i].as_ref() {
                Some(p) => {
                    if p.identifier == identifier {
                        proof {
                            assert(slot_inv(self.processes@[i as int], i as int));
                        }
                        return Some(p.processid());
                    }
                },
                None => {},
            }
            i = i + 1;
        }
        None
    }

    /// Whether `appid` still refers to a live process of its generation.
    pub fn processid_is_valid(&self, appid: &ProcessId) -> (r: bool)
        ensures
            r == pid_valid(*self, *appid),
    {
        if appid.index < self.processes.len() {
            match self.processes[appid.index].as_ref() {
                Some(p) => p.identifier == appid.id,
                None => false,
            }
        } else {
            false
        }
    }

    /// Mint a fresh process identifier (wrapping generation counter).
    pub fn create_process_identifier(&mut self) -> (id: usize)
        ensures
            id == old(self).process_identifier_max,
            *final(self) == (Kernel {
                process_identifier_max: old(self).process_identifier_max.wrapping_add(1),
                ..*old(self)
            }),
    {
        let id = self.process_identifier_max;
        self.process_identifier_max = self.process_identifier_max.wrapping_add(1);
        id
    }

    /// Number of grants created so far; irreversibly freezes grant
    /// creation, because process memory layouts are computed from it.
    pub fn get_grant_count_and_finalize(&mut self) -> (n: usize)
        ensures
            n == old(self).grant_counter,
            *final(self) == (Kernel { grants_finalized: true, ..*old(self) }),
    {
        self.grants_finalized = true;
        self.grant_counter
    }

    /// Capability-gated wrapper around [`Self::get_grant_count_and_finalize`].
    pub fn get_grant_count_and_finalize_external(
        &mut self,
        _capability: &ExternalProcessCapability,
    ) -> (n: usize)
        ensures
            n == old(self).grant_counter,
            *final(self) == (Kernel { grants_finalized: true, ..*old(self) }),
    {
        self.get_grant_count_and_finalize()
    }

    /// Cause all apps to fault, as if each had hit an MPU violation.
    pub fn hardfault_all_apps(&mut self, _c: &ProcessManagementCapability)
        requires
            old(self).wf(),
        ensures
            final(self).wf(),
            final(self).processes@.len() == old(self).processes@.len(),
            counters_unchanged(*old(self), *final(self)),
            forall|i: int|
                0 <= i < old(self).processes@.len() ==> slot_faulted(
                    #[trigger] old(self).processes@[i],
                    final(self).processes@[i],
                ),
    {
        let n = self.processes.len();
        let mut i: usize = 0;
        while i < n
            invariant
                self.wf(),
                n == self.processes@.len(),
                n == old(self).processes@.len(),
                i <= n,
                counters_unchanged(*old(self), *self),
                forall|j: int|
                    i <= j < n ==> self.processes@[j] == old(self).processes@[j],
                forall|j: int|
                    0 <= j < i ==> slot_faulted(
                        #[trigger] old(self).processes@[j],
                        self.processes@[j],
                    ),
            decreases n - i,
        {
            let live = self.processes[i].is_some();
            if live {
                self.set_fault_state(i);
            }
            i = i + 1;
        }
    }

    /// Transition the process in slot `idx` to `Faulted`, dropping its
    /// queued tasks (termination absorbs pending upcalls).
    pub fn set_fault_state(&mut self, idx: usize)
        requires
            old(self).wf(),
            (idx as int) < old(self).processes@.len(),
            old(self).processes@[idx as int] is Some,
        ensures
            final(self).wf(),
            counters_unchanged(*old(self), *final(self)),
            final(self).processes@ == old(self).processes@.update(
                idx as int,
                Some(
                    Process {
                        state: State::Faulted,
                        tasks: final(self).proc_at(idx as int).tasks,
                        ..old(self).proc_at(idx as int)
                    },
                ),
            ),
            final(self).proc_at(idx as int).tasks@.len() == 0,
            final(self).work == old(self).work - slot_work(old(self).processes@[idx as int]),
    {
        proof {
            lemma_slot_work_le_total(old(self).processes@, idx as int);
        }
        let ghost pre = *self;
        let p = self.proc_mut(idx);
        let dropped = p.tasks.len();
        let was_running = p.state == State::Running;
        p.tasks.clear();
        p.state = State::Faulted;
        self.work = self.work - dropped - (if was_running {
            1
        } else {
            0
        });
        proof {
            lemma_total_work_update(
                pre.processes@,
                idx as int,
                final(self).processes@[idx as int],
            );
        }
    }
}

impl Kernel {
    /// Store the return value of the syscall the process just made.
    pub fn set_syscall_return_value(&mut self, idx: usize, rv: SyscallReturn)
        requires
            old(self).wf(),
            (idx as int) < old(self).processes@.len(),
            old(self).processes@[idx as int] is Some,
        ensures
            final(self).wf(),
            counters_unchanged(*old(self), *final(self)),
            final(self).work == old(self).work,
            final(self).processes@ == old(self).processes@.update(
                idx as int,
                Some(
                    Process { syscall_return: Some(rv), ..old(self).proc_at(idx as int) },
                ),
            ),
    {
        let ghost pre = *self;
        let p = self.proc_mut(idx);
        p.syscall_return = Some(rv);
        proof {
            lemma_total_work_update(
                pre.processes@,
                idx as int,
                final(self).processes@[idx as int],
            );
        }
    }

    /// Record a timeslice expiration for debugging accounting.
    pub fn debug_timeslice_expired(&mut self, idx: usize)
        requires
            old(self).wf(),
            (idx as int) < old(self).processes@.len(),
            old(self).processes@[idx as int] is Some,
        ensures
            final(self).wf(),
            counters_unchanged(*old(self), *final(self)),
            final(self).work == old(self).work,
            final(self).processes@ == old(self).processes@.update(
                idx as int,
                Some(
                    Process {
                        timeslice_expirations: old(self).proc_at(
                            idx as int,
                        ).timeslice_expirations.wrapping_add(1),
                        ..old(self).proc_at(idx as int)
                    },
                ),
            ),
    {
        let ghost pre = *self;
        let p = self.proc_mut(idx);
        p.timeslice_expirations = p.timeslice_expirations.wrapping_add(1);
        proof {
            lemma_total_work_update(
                pre.processes@,
                idx as int,
                final(self).processes@[idx as int],
            );
        }
    }

    /// Write one byte into process memory, if the address is accessible.
    /// Used for the yield flag; an invalid address does nothing.
    pub fn set_byte(&mut self, idx: usize, addr: usize, value: u8) -> (r: bool)
        requires
            old(self).wf(),
            (idx as int) < old(self).processes@.len(),
            old(self).processes@[idx as int] is Some,
        ensures
            final(self).wf(),
            counters_unchanged(*old(self), *final(self)),
            final(self).work == old(self).work,
            r == (addr >= old(self).proc_at(idx as int).mem_base && addr - old(self).proc_at(
                idx as int,
            ).mem_base < old(self).proc_at(idx as int).mem@.len()),
            r ==> final(self).processes@ == old(self).processes@.update(
                idx as int,
                Some(
                    Process {
                        mem: final(self).proc_at(idx as int).mem,
                        ..old(self).proc_at(idx as int)
                    },
                ),
            ) && final(self).proc_at(idx as int).mem@ == old(self).proc_at(idx as int).mem@.update(
                addr - old(self).proc_at(idx as int).mem_base,
                value,
            ),
            !r ==> final(self).processes@ == old(self).processes@,
    {
        let ghost pre = *self;
        let p = self.proc_mut(idx);
        let ok = addr >= p.mem_base && addr - p.mem_base < p.mem.len();
        if ok {
            p.mem.set(addr - p.mem_base, value);
        }
        proof {
            lemma_total_work_update(
                pre.processes@,
                idx as int,
                final(self).processes@[idx as int],
            );
            if !ok {
                assert(pre.processes@.update(idx as int, pre.processes@[idx as int])
                    =~= pre.processes@);
            }
        }
        ok
    }

    /// Validate a user-supplied region and build the read-write slice
    /// handed to a driver.
    pub fn build_readwrite_appslice(&self, idx: usize, addr: usize, size: usize) -> (r: Result<
        ProcessSlice,
        crate::errorcode::ErrorCode,
    >)
        requires
            (idx as int) < self.processes@.len(),
            self.processes@[idx as int] is Some,
        ensures
            r == if crate::process::slice_in_bounds(self.proc_at(idx as int), addr, size) {
                Ok::<ProcessSlice, crate::errorcode::ErrorCode>(ProcessSlice { ptr: addr, len: size })
            } else {
                Err::<ProcessSlice, crate::errorcode::ErrorCode>(crate::errorcode::ErrorCode::INVAL)
            },
    {
        let p = match self.processes[idx].as_ref() {
            Some(p) => p,
            None => vstd::pervasive::unreached(),
        };
        if size == 0 || (addr >= p.mem_base && size <= p.mem.len() && addr - p.mem_base
            <= p.mem.len() - size) {
            Ok(ProcessSlice { ptr: addr, len: size })
        } else {
            Err(crate::errorcode::ErrorCode::INVAL)
        }
    }

    /// Validate a user-supplied region and build the read-only slice
    /// handed to a driver.
    pub fn build_readonly_appslice(&self, idx: usize, addr: usize, size: usize) -> (r: Result<
        ProcessSlice,
        crate::errorcode::ErrorCode,
    >)
        requires
            (idx as int) < self.processes@.len(),
            self.processes@[idx as int] is Some,
        ensures
            r == if crate::process::slice_in_bounds(self.proc_at(idx as int), addr, size) {
                Ok::<ProcessSlice, crate::errorcode::ErrorCode>(ProcessSlice { ptr: addr, len: size })
            } else {
                Err::<ProcessSlice, crate::errorcode::ErrorCode>(crate::errorcode::ErrorCode::INVAL)
            },
    {
        self.build_readwrite_appslice(idx, addr, size)
    }

    /// Move a `Running` process to `Yielded`; any other state is kept.
    pub fn set_yielded_state(&mut self, idx: usize)
        requires
            old(self).wf(),
            (idx as int) < old(self).processes@.len(),
            old(self).processes@[idx as int] is Some,
        ensures
            final(self).wf(),
            counters_unchanged(*old(self), *final(self)),
            old(self).proc_at(idx as int).state == State::Running ==> {
                &&& final(self).processes@ == old(self).processes@.update(
                    idx as int,
                    Some(Process { state: State::Yielded, ..old(self).proc_at(idx as int) }),
                )
                &&& final(self).work == old(self).work - 1
            },
            old(self).proc_at(idx as int).state != State::Running ==> {
                &&& final(self).processes@ == old(self).processes@
                &&& final(self).work == old(self).work
            },
    {
        proof {
            lemma_slot_work_le_total(old(self).processes@, idx as int);
        }
        let ghost pre = *self;
        let p = self.proc_mut(idx);
        let was_running = p.state == State::Running;
        if was_running {
            p.state = State::Yielded;
        }
        if was_running {
            self.work = self.work - 1;
        }
        proof {
            lemma_total_work_update(
                pre.processes@,
                idx as int,
                final(self).processes@[idx as int],
            );
            if !was_running {
                assert(pre.processes@.update(idx as int, pre.processes@[idx as int])
                    =~= pre.processes@);
            }
        }
    }

    /// Install a queued function call as the process's next entry point
    /// and let it run: the process becomes `Running`.
    pub fn set_process_function(&mut self, idx: usize, fc: FunctionCall)
        requires
            old(self).wf(),
            (idx as int) < old(self).processes@.len(),
            old(self).processes@[idx as int] is Some,
            old(self).proc_at(idx as int).state == State::Yielded || old(self).proc_at(
                idx as int,
            ).state == State::Unstarted,
        ensures
            final(self).wf(),
            counters_unchanged(*old(self), *final(self)),
            final(self).processes@ == old(self).processes@.update(
                idx as int,
                Some(
                    Process {
                        state: State::Running,
                        delivered: final(self).proc_at(idx as int).delivered,
                        ..old(self).proc_at(idx as int)
                    },
                ),
            ),
            final(self).proc_at(idx as int).delivered@ == old(self).proc_at(
                idx as int,
            ).delivered@.push(fc),
            final(self).work == old(self).work + 1,
    {
        proof {
            assert(forall|i: int|
                0 <= i < old(self).processes@.len() ==> slot_work(
                    #[trigger] old(self).processes@[i],
                ) <= TASK_QUEUE_SIZE + 1);
            lemma_total_work_bounded(old(self).processes@);
        }
        let ghost pre = *self;
        let p = self.proc_mut(idx);
        p.delivered.push(fc);
        p.state = State::Running;
        self.work = self.work + 1;
        proof {
            lemma_total_work_update(
                pre.processes@,
                idx as int,
                final(self).processes@[idx as int],
            );
        }
    }

    /// Pop the next queued task, accounting for the work done.
    pub fn dequeue_task(&mut self, idx: usize) -> (r: Option<Task>)
        requires
            old(self).wf(),
            (idx as int) < old(self).processes@.len(),
            old(self).processes@[idx as int] is Some,
        ensures
            final(self).wf(),
            counters_unchanged(*old(self), *final(self)),
            old(self).proc_at(idx as int).tasks@.len() == 0 ==> {
                &&& r is None
                &&& final(self).processes@ == old(self).processes@
                &&& final(self).work == old(self).work
            },
            old(self).proc_at(idx as int).tasks@.len() > 0 ==> {
                &&& r == Some(old(self).proc_at(idx as int).tasks@[0])
                &&& final(self).processes@ == old(self).processes@.update(
                    idx as int,
                    Some(
                        Process {
                            tasks: final(self).proc_at(idx as int).tasks,
                            ..old(self).proc_at(idx as int)
                        },
                    ),
                )
                &&& final(self).proc_at(idx as int).tasks@ == old(self).proc_at(
                    idx as int,
                ).tasks@.drop_first()
                &&& final(self).work == old(self).work - 1
            },
    {
        proof {
            lemma_slot_work_le_total(old(self).processes@, idx as int);
        }
        let ghost pre = *self;
        let p = self.proc_mut(idx);
        if p.tasks.len() == 0 {
            proof {
                assert(pre.processes@.update(idx as int, pre.processes@[idx as int])
                    =~= pre.processes@);
            }
            None
        } else {
            let t = p.tasks.remove(0);
            self.work = self.work - 1;
            proof {
                assert(final(self).proc_at(idx as int).tasks@ =~= pre.proc_at(
                    idx as int,
                ).tasks@.drop_first());
                lemma_total_work_update(
                    pre.processes@,
                    idx as int,
                    final(self).processes@[idx as int],
                );
            }
            Some(t)
        }
    }

    /// Append a task to a process's queue.  Fails (returning `false`,
    /// with nothing changed) when the slot is empty or out of range, the
    /// process is no longer active, or its queue is full.
    pub fn enqueue_task(&mut self, idx: usize, task: Task) -> (r: bool)
        requires
            old(self).wf(),
        ensures
            final(self).wf(),
            counters_unchanged(*old(self), *final(self)),
            final(self).processes@.len() == old(self).processes@.len(),
            r == ((idx as int) < old(self).processes@.len() && old(self).processes@[idx as int]
                is Some && old(self).proc_at(idx as int).spec_active() && old(self).proc_at(
                idx as int,
            ).tasks@.len() < TASK_QUEUE_SIZE),
            r ==> {
                &&& final(self).processes@ == old(self).processes@.update(
                    idx as int,
                    Some(
                        Process {
                            tasks: final(self).proc_at(idx as int).tasks,
                            ..old(self).proc_at(idx as int)
                        },
                    ),
                )
                &&& final(self).proc_at(idx as int).tasks@ == old(self).proc_at(
                    idx as int,
                ).tasks@.push(task)
                &&& final(self).work == old(self).work + 1
            },
            !r ==> final(self).processes@ == old(self).processes@ && final(self).work == old(self).work,
    {
        if idx >= self.processes.len() {
            return false;
        }
        let eligible = match self.processes[idx].as_ref() {
            Some(p) => p.is_active() && p.tasks.len() < TASK_QUEUE_SIZE,
            None => false,
        };
        if !eligible {
            return false;
        }
        proof {
            assert(forall|i: int|
                0 <= i < old(self).processes@.len() ==> slot_work(
                    #[trigger] old(self).processes@[i],
                ) <= TASK_QUEUE_SIZE + 1);
            lemma_total_work_bounded(old(self).processes@);
        }
        let ghost pre = *self;
        let p = self.proc_mut(idx);
        p.tasks.push(task);
        self.work = self.work + 1;
        proof {
            lemma_total_work_update(
                pre.processes@,
                idx as int,
                final(self).processes@[idx as int],
            );
        }
        true
    }

    /// Schedule an upcall on its process: enqueue a function-call task
    /// carrying the three arguments plus the subscriber's appdata.
    /// Scheduling a null upcall, or one whose process identifier went
    /// stale, is a no-op; so is scheduling on a full queue or a dead
    /// process.  Returns whether a task was queued.
    pub fn schedule_upcall(&mut self, upcall: Upcall, r0: usize, r1: usize, r2: usize) -> (r:
        bool)
        requires
            old(self).wf(),
        ensures
            final(self).wf(),
            driver_step(*old(self), *final(self)),
            spec_upcall_scheduled(*old(self), *final(self), upcall, r0, r1, r2),
            r == (upcall.fn_ptr != 0 && pid_valid(*old(self), upcall.process_id) && old(self).proc_at(upcall.process_id.index as int).spec_active() && old(self).proc_at(
                upcall.process_id.index as int,
            ).tasks@.len() < TASK_QUEUE_SIZE),
            r ==> {
                &&& final(self).processes@ == old(self).processes@.update(
                    upcall.process_id.index as int,
                    Some(
                        Process {
                            tasks: final(self).proc_at(upcall.process_id.index as int).tasks,
                            ..old(self).proc_at(upcall.process_id.index as int)
                        },
                    ),
                )
                &&& final(self).proc_at(upcall.process_id.index as int).tasks@ == old(self).proc_at(upcall.process_id.index as int).tasks@.push(
                    Task::FunctionCall(
                        FunctionCall {
                            source: FunctionCallSource::Driver(upcall.upcall_id),
                            pc: upcall.fn_ptr,
                            argument0: r0,
                            argument1: r1,
                            argument2: r2,
                            argument3: upcall.appdata,
                        },
                    ),
                )
                &&& final(self).work == old(self).work + 1
            },
            !r ==> final(self).processes@ == old(self).processes@ && final(self).work == old(self).work,
    {
        let ghost pre = *self;
        if upcall.fn_ptr == 0 {
            proof {
                lemma_driver_step_refl(*self);
            }
            return false;
        }
        if !self.processid_is_valid(&upcall.process_id) {
            proof {
                lemma_driver_step_refl(*self);
            }
            return false;
        }
        let task = Task::FunctionCall(
            FunctionCall {
                source: FunctionCallSource::Driver(upcall.upcall_id),
                pc: upcall.fn_ptr,
                argument0: r0,
                argument1: r1,
                argument2: r2,
                argument3: upcall.appdata,
            },
        );
        let queued = self.enqueue_task(upcall.process_id.index, task);
        proof {
            if queued {
                let i = upcall.process_id.index as int;
                assert forall|j: int| 0 <= j < pre.processes@.len() implies slot_driver_step(
                    #[trigger] pre.processes@[j],
                    final(self).processes@[j],
                ) by {
                    if j == i {
                        let p0 = pre.proc_at(i);
                        let q0 = final(self).proc_at(i);
                        assert(q0.tasks@ == p0.tasks@.push(task));
                        assert(p0.tasks@ =~= q0.tasks@.take(p0.tasks@.len() as int));
                    } else {
                        lemma_slot_driver_step_refl(pre.processes@[j]);
                    }
                }
            } else {
                lemma_driver_step_refl(*self);
                assert(driver_step(pre, *final(self)));
            }
        }
        queued
    }

    /// Remove every queued upcall task registered for `upcall_id`,
    /// returning how many were dropped.  Called on re-subscription so no
    /// stale callback with an old function pointer can fire.
    pub fn remove_pending_upcalls(&mut self, idx: usize, upcall_id: UpcallId) -> (n: usize)
        requires
            old(self).wf(),
            (idx as int) < old(self).processes@.len(),
            old(self).processes@[idx as int] is Some,
        ensures
            final(self).wf(),
            counters_unchanged(*old(self), *final(self)),
            final(self).processes@ == old(self).processes@.update(
                idx as int,
                Some(
                    Process {
                        tasks: final(self).proc_at(idx as int).tasks,
                        ..old(self).proc_at(idx as int)
                    },
                ),
            ),
            final(self).proc_at(idx as int).tasks@ == without_upcalls(
                old(self).proc_at(idx as int).tasks@,
                upcall_id,
            ),
            n == old(self).proc_at(idx as int).tasks@.len() - final(self).proc_at(
                idx as int,
            ).tasks@.len(),
            final(self).work == old(self).work - n,
    {
        proof {
            lemma_slot_work_le_total(old(self).processes@, idx as int);
        }
        let ghost pre = *self;
        let p = self.proc_mut(idx);
        let ghost orig = p.tasks@;
        let total = p.tasks.len();
        let mut kept: Vec<Task> = Vec::new();
        let mut i: usize = 0;
        while i < total
            invariant
                total == p.tasks@.len(),
                p.tasks@ == orig,
                i <= total,
                kept@ == without_upcalls(orig.take(i as int), upcall_id),
                kept@.len() <= i,
            decreases total - i,
        {
            let t = p.tasks[i];
            let keep = match t {
                Task::FunctionCall(fc) => match fc.source {
                    FunctionCallSource::Driver(id) => !(id == upcall_id),
                    FunctionCallSource::Kernel => true,
                },
                Task::IPC(_, _) => true,
            };
            if keep {
                kept.push(t);
            }
            proof {
                assert(orig.take(i as int + 1) =~= orig.take(i as int).push(orig[i as int]));
                crate::upcall::lemma_without_upcalls_push(
                    orig.take(i as int),
                    upcall_id,
                    orig[i as int],
                );
            }
            i = i + 1;
        }
        proof {
            assert(orig.take(total as int) =~= orig);
        }
        let removed = total - kept.len();
        p.tasks = kept;
        self.work = self.work - removed;
        proof {
            lemma_total_work_update(
                pre.processes@,
                idx as int,
                final(self).processes@[idx as int],
            );
        }
        removed
    }

    /// Terminate the process: drop its queued tasks, record the
    /// completion code and mark the slot `Terminated`.  A process that
    /// already faulted or terminated is left untouched.
    pub fn terminate(&mut self, idx: usize, completion_code: u32)
        requires
            old(self).wf(),
            (idx as int) < old(self).processes@.len(),
            old(self).processes@[idx as int] is Some,
        ensures
            final(self).wf(),
            counters_unchanged(*old(self), *final(self)),
            old(self).proc_at(idx as int).spec_active() ==> {
                &&& final(self).processes@ == old(self).processes@.update(
                    idx as int,
                    Some(
                        Process {
                            state: State::Terminated,
                            tasks: final(self).proc_at(idx as int).tasks,
                            completion_code: Some(completion_code),
                            ..old(self).proc_at(idx as int)
                        },
                    ),
                )
                &&& final(self).proc_at(idx as int).tasks@.len() == 0
                &&& final(self).work == old(self).work - slot_work(
                    old(self).processes@[idx as int],
                )
            },
            !old(self).proc_at(idx as int).spec_active() ==> final(self).processes@ == old(self).processes@ && final(self).work == old(self).work,
    {
        proof {
            lemma_slot_work_le_total(old(self).processes@, idx as int);
        }
        let ghost pre = *self;
        let p = self.proc_mut(idx);
        if !p.is_active() {
            proof {
                assert(pre.processes@.update(idx as int, pre.processes@[idx as int])
                    =~= pre.processes@);
            }
            return ;
        }
        let dropped = p.tasks.len();
        let was_running = p.state == State::Running;
        p.tasks.clear();
        p.state = State::Terminated;
        p.completion_code = Some(completion_code);
        self.work = self.work - dropped - (if was_running {
            1
        } else {
            0
        });
        proof {
            lemma_total_work_update(
                pre.processes@,
                idx as int,
                final(self).processes@[idx as int],
            );
        }
    }

    /// Terminate the process and restart it in place: the slot keeps the
    /// remaining user-program script but gets a fresh generation
    /// identifier and starts over as `Unstarted`.  A process that already
    /// faulted or terminated is left untouched.
    pub fn try_restart(&mut self, idx: usize, completion_code: u32)
        requires
            old(self).wf(),
            (idx as int) < old(self).processes@.len(),
            old(self).processes@[idx as int] is Some,
        ensures
            final(self).wf(),
            final(self).grant_counter == old(self).grant_counter,
            final(self).grants_finalized == old(self).grants_finalized,
            old(self).proc_at(idx as int).spec_active() ==> {
                &&& final(self).processes@ == old(self).processes@.update(
                    idx as int,
                    Some(
                        Process {
                            state: State::Unstarted,
                            identifier: old(self).process_identifier_max,
                            tasks: final(self).proc_at(idx as int).tasks,
                            completion_code: Some(completion_code),
                            ..old(self).proc_at(idx as int)
                        },
                    ),
                )
                &&& final(self).proc_at(idx as int).tasks@.len() == 0
                &&& final(self).work == old(self).work - slot_work(
                    old(self).processes@[idx as int],
                )
                &&& final(self).process_identifier_max == old(self).process_identifier_max.wrapping_add(1)
            },
            !old(self).proc_at(idx as int).spec_active() ==> final(self).processes@ == old(self).processes@ && final(self).work == old(self).work && final(self).process_identifier_max == old(self).process_identifier_max,
    {
        proof {
            lemma_slot_work_le_total(old(self).processes@, idx as int);
        }
        let ghost pre = *self;
        let active = match self.processes[idx].as_ref() {
            Some(p) => p.is_active(),
            None => false,
        };
        if !active {
            return ;
        }
        let new_identifier = self.create_process_identifier();
        let ghost mid = *self;
        let p = self.proc_mut(idx);
        let dropped = p.tasks.len();
        let was_running = p.state == State::Running;
        p.tasks.clear();
        p.state = State::Unstarted;
        p.identifier = new_identifier;
        p.completion_code = Some(completion_code);
        self.work = self.work - dropped - (if was_running {
            1
        } else {
            0
        });
        proof {
            lemma_total_work_update(
                mid.processes@,
                idx as int,
                final(self).processes@[idx as int],
            );
        }
    }
}

impl Kernel {
    /// Run a closure on the process `appid` refers to, if it still
    /// exists at that slot with that generation; otherwise return
    /// `default`.
    pub fn process_map_or<R, F: FnOnce(&Process) -> R>(
        &self,
        default: R,
        appid: ProcessId,
        closure: F,
    ) -> (r: R)
        requires
            pid_valid(*self, appid) ==> call_requires(
                closure,
                (&self.proc_at(appid.index as int),),
            ),
        ensures
            pid_valid(*self, appid) ==> call_ensures(
                closure,
                (&self.proc_at(appid.index as int),),
                r,
            ),
            !pid_valid(*self, appid) ==> r == default,
    {
        if appid.index < self.processes.len() {
            match self.processes[appid.index].as_ref() {
                Some(process) => {
                    if process.identifier == appid.id {
                        closure(process)
                    } else {
                        default
                    }
                },
                None => default,
            }
        } else {
            default
        }
    }

    /// Run a closure on every process that exists.
    pub fn process_each<F: Fn(&Process)>(&self, closure: F)
        requires
            forall|i: int|
                self.live_at(i) ==> call_requires(closure, (&#[trigger] self.proc_at(i),)),
        ensures
            forall|i: int|
                self.live_at(i) ==> call_ensures(closure, (&#[trigger] self.proc_at(i),), ()),
    {
        let n = self.processes.len();
        let mut i: usize = 0;
        while i < n
            invariant
                n == self.processes@.len(),
                i <= n,
                forall|j: int|
                    self.live_at(j) ==> call_requires(closure, (&#[trigger] self.proc_at(j),)),
                forall|j: int|
                    0 <= j < i && self.live_at(j) ==> call_ensures(
                        closure,
                        (&#[trigger] self.proc_at(j),),
                        (),
                    ),
            decreases n - i,
        {
            match self.processes[i].as_ref() {
                Some(p) => {
                    proof {
                        assert(self.live_at(i as int));
                        assert(call_requires(closure, (&self.proc_at(i as int),)));
                    }
                    closure(p);
                },
                None => {},
            }
            i = i + 1;
        }
    }

    /// Run a closure on every process that exists.  Functionally the
    /// same as [`Self::process_each`], but available outside the kernel
    /// against a process-management capability.
    pub fn process_each_capability<F: Fn(&Process)>(
        &self,
        _capability: &ProcessManagementCapability,
        closure: F,
    )
        requires
            forall|i: int|
                self.live_at(i) ==> call_requires(closure, (&#[trigger] self.proc_at(i),)),
        ensures
            forall|i: int|
                self.live_at(i) ==> call_ensures(closure, (&#[trigger] self.proc_at(i),), ()),
    {
        self.process_each(closure);
    }

    /// Run a closure on every process until it returns a value:
    /// iteration stops at the first non-`None` answer, which is
    /// returned.
    pub fn process_until<T, F: Fn(&Process) -> Option<T>>(&self, closure: F) -> (r: Option<T>)
        requires
            forall|i: int|
                self.live_at(i) ==> call_requires(closure, (&#[trigger] self.proc_at(i),)),
        ensures
            r matches Some(v) ==> exists|i: int|
                {
                    &&& self.live_at(i)
                    &&& call_ensures(closure, (&#[trigger] self.proc_at(i),), Some(v))
                    &&& forall|j: int|
                        0 <= j < i && self.live_at(j) ==> call_ensures(
                            closure,
                            (&#[trigger] self.proc_at(j),),
                            None::<T>,
                        )
                },
            r is None ==> forall|i: int|
                self.live_at(i) ==> call_ensures(
                    closure,
                    (&#[trigger] self.proc_at(i),),
                    None::<T>,
                ),
    {
        let n = self.processes.len();
        let mut i: usize = 0;
        while i < n
            invariant
                n == self.processes@.len(),
                i <= n,
                forall|j: int|
                    self.live_at(j) ==> call_requires(closure, (&#[trigger] self.proc_at(j),)),
                forall|j: int|
                    0 <= j < i && self.live_at(j) ==> call_ensures(
                        closure,
                        (&#[trigger] self.proc_at(j),),
                        None::<T>,
                    ),
            decreases n - i,
        {
            match self.processes[i].as_ref() {
                Some(p) => {
                    proof {
                        assert(self.live_at(i as int));
                        assert(call_requires(closure, (&self.proc_at(i as int),)));
                    }
                    let ret = closure(p);
                    if ret.is_some() {
                        proof {
                            assert(call_ensures(closure, (&self.proc_at(i as int),), ret));
                        }
                        return ret;
                    }
                },
                None => {},
            }
            i = i + 1;
        }
        None
    }

    /// The identifiers of all processes loaded by the kernel, in slot
    /// order.
    pub fn get_process_iter(&self) -> (r: Vec<ProcessId>)
        requires
            self.wf(),
        ensures
            r@.len() <= self.processes@.len(),
            forall|j: int| 0 <= j < r@.len() ==> pid_valid(*self, #[trigger] r@[j]),
            forall|j: int|
                0 <= j < r@.len() ==> (#[trigger] r@[j]) == self.proc_at(
                    r@[j].index as int,
                ).spec_processid(),
            forall|i: int|
                self.live_at(i) ==> exists|j: int|
                    0 <= j < r@.len() && (#[trigger] r@[j]).index == i,
            forall|j1: int, j2: int| 0 <= j1 < j2 < r@.len() ==> r@[j1].index < r@[j2].index,
    {
        let n = self.processes.len();
        let mut out: Vec<ProcessId> = Vec::new();
        let mut i: usize = 0;
        while i < n
            invariant
                self.wf(),
                n == self.processes@.len(),
                i <= n,
                forall|j: int| 0 <= j < out@.len() ==> pid_valid(*self, #[trigger] out@[j]),
                forall|j: int|
                    0 <= j < out@.len() ==> (#[trigger] out@[j]) == self.proc_at(
                        out@[j].index as int,
                    ).spec_processid(),
                forall|j: int| 0 <= j < out@.len() ==> (#[trigger] out@[j]).index < i,
                forall|k: int|
                    0 <= k < i && self.live_at(k) ==> exists|j: int|
                        0 <= j < out@.len() && (#[trigger] out@[j]).index == k,
                forall|j1: int, j2: int|
                    0 <= j1 < j2 < out@.len() ==> out@[j1].index < out@[j2].index,
                out@.len() <= i,
            decreases n - i,
        {
            let ghost out0 = out@;
            match self.processes[i].as_ref() {
                Some(p) => {
                    proof {
                        assert(slot_inv(self.processes@[i as int], i as int));
                    }
                    out.push(p.processid());
                },
                None => {},
            }
            proof {
                assert forall|k: int|
                    0 <= k < i + 1 && self.live_at(k) implies exists|j: int|
                        0 <= j < out@.len() && (#[trigger] out@[j]).index == k by {
                    if k == i as int {
                        if self.live_at(i as int) {
                            assert(out@[out@.len() - 1].index == k);
                        }
                    } else {
                        let j0 = choose|j: int|
                            0 <= j < out0.len() && (#[trigger] out0[j]).index == k;
                        assert(out@[j0].index == k);
                    }
                }
            }
            i = i + 1;
        }
        out
    }
}

/// Any kernel state is a (trivial) driver step from itself.
pub proof fn lemma_driver_step_refl(k: Kernel)
    ensures
        driver_step(k, k),
{
    assert forall|j: int| 0 <= j < k.processes@.len() implies slot_driver_step(
        #[trigger] k.processes@[j],
        k.processes@[j],
    ) by {
        lemma_slot_driver_step_refl(k.processes@[j]);
    }
}

/// Per-slot reflexivity of the driver-step relation.
pub proof fn lemma_slot_driver_step_refl(s: Option<Process>)
    ensures
        slot_driver_step(s, s),
{
    match s {
        None => {},
        Some(p) => {
            assert(p.tasks@ =~= p.tasks@.take(p.tasks@.len() as int));
        },
    }
}

/// A process array with no running process and no queued tasks carries no
/// work.
pub proof fn lemma_total_work_zero_of_idle(s: Seq<Option<Process>>)
    requires
        forall|i: int| 0 <= i < s.len() ==> slot_work(#[trigger] s[i]) == 0,
    ensures
        total_work(s) == 0,
    decreases s.len(),
{
    if s.len() > 0 {
        assert(forall|i: int|
            0 <= i < s.drop_first().len() ==> #[trigger] s.drop_first()[i] == s[i + 1]);
        lemma_total_work_zero_of_idle(s.drop_first());
    }
}

/// When the work counter is zero, no process is `Running` and no tasks
/// are queued anywhere.
pub proof fn lemma_no_work_means_idle(k: Kernel)
    requires
        k.wf(),
        k.work == 0,
    ensures
        forall|i: int|
            0 <= i < k.processes@.len() ==> (#[trigger] k.processes@[i] matches Some(p) ==> {
                &&& p.state != State::Running
                &&& p.tasks@.len() == 0
            }),
{
    assert forall|i: int|
        0 <= i < k.processes@.len() implies (#[trigger] k.processes@[i] matches Some(p) ==> {
        &&& p.state != State::Running
        &&& p.tasks@.len() == 0
    }) by {
        lemma_slot_work_le_total(k.processes@, i);
    }
}

} // verus!
