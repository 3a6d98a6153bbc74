//! The per-process state machine.
//!
//! A process entry carries the kernel-visible state of one user program
//! instance: its identifier pair, lifecycle state, task queue, memory
//! region and grant-relevant bookkeeping.  What the user program *does*
//! when it is given the CPU is modelled by a script of context-switch
//! outcomes: each entry says how many microseconds the program consumes
//! before control returns to the kernel and why it returns.

use vstd::prelude::*;
use crate::chip::{Chip, SchedulerTimer};
use crate::syscall::{ContextSwitchReason, Syscall, SyscallReturn};
use crate::upcall::{FunctionCall, Task};

verus! {

/// Lifecycle states of a process; transitions happen under kernel control
/// only.
#[derive(Clone, Copy, Debug, PartialEq, Eq, Structural)]
pub enum State {
    /// Created but never run.
    Unstarted,
    /// Holds or is ready to hold the CPU.
    Running,
    /// Waiting for an upcall.
    Yielded,
    /// Stopped by the kernel while it was running.
    StoppedRunning,
    /// Stopped by the kernel while it was yielded.
    StoppedYielded,
    /// Crashed; never scheduled again until its slot is reused.
    Faulted,
    /// Exited; never scheduled again until its slot is reused.
    Terminated,
}

/// Stable identifier of a process: the slot in the kernel's process array
/// plus a generation that distinguishes successive occupants of the slot.
#[derive(Clone, Copy, Debug, PartialEq, Eq, Structural)]
pub struct ProcessId {
    /// Index into the kernel's fixed process array.
    pub index: usize,
    /// Generation counter value this identifier was minted with.
    pub id: usize,
}

/// What the user program does when control next returns to the kernel.
#[derive(Clone, Copy, Debug, PartialEq, Eq, Structural)]
pub enum UserAction {
    /// The program violates its memory bounds.
    Fault,
    /// The program invokes a system call.
    MakeSyscall(Syscall),
    /// A hardware interrupt unrelated to the preemption timer fires.
    Interrupted,
    /// The hardware context switch fails outright.
    InvalidSwitch,
}

/// One step of a user program: CPU time consumed, then the reason control
/// returns to the kernel.
#[derive(Clone, Copy, Debug, PartialEq, Eq, Structural)]
pub struct UserStep {
    pub cost_us: u32,
    pub action: UserAction,
}

/// The context-switch reason a completed user step produces; `None`
/// models a failed hardware switch.
pub open spec fn action_reason(a: UserAction) -> Option<ContextSwitchReason> {
    match a {
        UserAction::Fault => Some(ContextSwitchReason::Fault),
        UserAction::MakeSyscall(s) => Some(ContextSwitchReason::SyscallFired { syscall: s }),
        UserAction::Interrupted => Some(ContextSwitchReason::Interrupted),
        UserAction::InvalidSwitch => None,
    }
}

/// Kernel-side record of one user process.
pub struct Process {
    /// Slot this process occupies in the kernel's process array.
    pub slot_index: usize,
    /// Generation identifier; `ProcessId { index: slot_index, id: identifier }`.
    pub identifier: usize,
    pub state: State,
    /// FIFO of queued tasks (upcalls and IPC notifications).
    pub tasks: Vec<Task>,
    /// Remaining behaviour of the user program, front entry first.
    pub script: Vec<UserStep>,
    /// First address of the process-accessible memory region.
    pub mem_base: usize,
    /// The process-accessible memory region itself.
    pub mem: Vec<u8>,
    /// Completion code recorded at exit.
    pub completion_code: Option<u32>,
    /// Return value stored for the process's last syscall.
    pub syscall_return: Option<SyscallReturn>,
    /// Every user function installed for execution, in order (upcall
    /// deliveries and startup entry points).
    pub delivered: Vec<FunctionCall>,
    /// Completed hardware context switches (wrapping count).
    pub switch_count: u64,
    /// Timeslice expirations observed for this process (wrapping count).
    pub timeslice_expirations: u64,
}

impl Process {
    /// A fresh process entry in the `Unstarted` state with a zeroed
    /// memory region of `mem_size` bytes.
    pub fn new(
        slot_index: usize,
        identifier: usize,
        mem_base: usize,
        mem_size: usize,
        script: Vec<UserStep>,
    ) -> (p: Process)
        ensures
            p.slot_index == slot_index,
            p.identifier == identifier,
            p.state == State::Unstarted,
            p.tasks@.len() == 0,
            p.script@ == script@,
            p.mem_base == mem_base,
            p.mem@.len() == mem_size,
            forall|i: int| 0 <= i < mem_size ==> p.mem@[i] == 0u8,
            p.completion_code is None,
            p.syscall_return is None,
            p.delivered@.len() == 0,
            p.switch_count == 0,
            p.timeslice_expirations == 0,
    {
        Process {
            slot_index,
            identifier,
            state: State::Unstarted,
            tasks: Vec::new(),
            script,
            mem_base,
            mem: vec![0u8; mem_size],
            completion_code: None,
            syscall_return: None,
            delivered: Vec::new(),
            switch_count: 0,
            timeslice_expirations: 0,
        }
    }

    /// The identifier pair other components use to refer to this process.
    pub fn processid(&self) -> (pid: ProcessId)
        ensures
            pid == self.spec_processid(),
    {
        ProcessId { index: self.slot_index, id: self.identifier }
    }

    pub open spec fn spec_processid(&self) -> ProcessId {
        ProcessId { index: self.slot_index, id: self.identifier }
    }

    /// A process is ready when it expects the CPU or has queued tasks.
    pub open spec fn spec_ready(&self) -> bool {
        self.tasks@.len() > 0 || self.state == State::Running
    }

    /// Whether the kernel should consider giving this process the CPU.
    pub fn ready(&self) -> (r: bool)
        ensures
            r == self.spec_ready(),
    {
        self.tasks.len() > 0 || self.state == State::Running
    }

    /// A process is active until it faults or terminates.
    pub open spec fn spec_active(&self) -> bool {
        self.state != State::Faulted && self.state != State::Terminated
    }

    pub fn is_active(&self) -> (r: bool)
        ensures
            r == self.spec_active(),
    {
        self.state != State::Faulted && self.state != State::Terminated
    }

    /// Whether any tasks are queued for this process.
    pub fn has_tasks(&self) -> (r: bool)
        ensures
            r == (self.tasks@.len() > 0),
    {
        self.tasks.len() > 0
    }

    /// Perform the hardware context switch into user mode and report why
    /// control came back.
    ///
    /// The next script entry is executed against the (real or null)
    /// scheduler timer: if the armed timeslice runs out first, the timer
    /// expires, the entry keeps its unfinished remainder and the switch
    /// reports an interrupt; otherwise the entry completes, its cost is
    /// deducted and its action decides the reported reason.  An empty
    /// script models a switch that fails outright.
    pub fn switch_to(&mut self, chip: &mut Chip, real_timer: bool) -> (r: Option<
        ContextSwitchReason,
    >)
        ensures
            old(self).script@.len() == 0 ==> {
                &&& r is None
                &&& *final(self) == *old(self)
                &&& *final(chip) == *old(chip)
            },
            old(self).script@.len() > 0 && real_timer && old(chip).timer.expired ==> {
                &&& r == Some(ContextSwitchReason::Interrupted)
                &&& *final(self) == *old(self)
                &&& *final(chip) == *old(chip)
            },
            old(self).script@.len() > 0 && real_timer && !old(chip).timer.expired && old(
                self,
            ).script@[0].cost_us >= old(chip).timer.remaining ==> {
                &&& r == Some(ContextSwitchReason::Interrupted)
                &&& *final(chip) == (Chip {
                    timer: SchedulerTimer {
                        remaining: 0,
                        expired: true,
                        armed: old(chip).timer.armed,
                    },
                    ..*old(chip)
                })
                &&& *final(self) == (Process {
                    script: final(self).script,
                    switch_count: old(self).switch_count.wrapping_add(1),
                    ..*old(self)
                })
                &&& final(self).script@ == old(self).script@.update(
                    0,
                    UserStep {
                        cost_us: ((old(self).script@[0].cost_us - old(
                            chip,
                        ).timer.remaining) as u32),
                        action: old(self).script@[0].action,
                    },
                )
            },
            old(self).script@.len() > 0 && (!real_timer || (!old(chip).timer.expired && old(
                self,
            ).script@[0].cost_us < old(chip).timer.remaining)) ==> {
                &&& r == action_reason(old(self).script@[0].action)
                &&& *final(self) == (Process {
                    script: final(self).script,
                    switch_count: old(self).switch_count.wrapping_add(1),
                    ..*old(self)
                })
                &&& final(self).script@ == old(self).script@.drop_first()
                &&& (real_timer ==> *final(chip) == (Chip {
                    timer: SchedulerTimer {
                        remaining: ((old(chip).timer.remaining - old(
                            self,
                        ).script@[0].cost_us) as u32),
                        expired: false,
                        armed: old(chip).timer.armed,
                    },
                    ..*old(chip)
                }))
                &&& (!real_timer ==> *final(chip) == *old(chip))
            },
    {
        if self.script.len() == 0 {
            return None;
        }
        let step = self.script[0];
        if real_timer {
            if self.timer_is_expired(chip) {
                return Some(ContextSwitchReason::Interrupted);
            }
            let rem = chip.timer.remaining;
            if step.cost_us >= rem {
                // The preemption interrupt fires mid-step: the step keeps
                // its unfinished remainder and will resume later.
                chip.timer = SchedulerTimer {
                    remaining: 0,
                    expired: true,
                    armed: chip.timer.armed,
                };
                self.script.set(
                    0,
                    UserStep { cost_us: step.cost_us - rem, action: step.action },
                );
                self.switch_count = self.switch_count.wrapping_add(1);
                return Some(ContextSwitchReason::Interrupted);
            }
            chip.timer = SchedulerTimer {
                remaining: rem - step.cost_us,
                expired: false,
                armed: chip.timer.armed,
            };
        }
        let _ = self.script.remove(0);
        self.switch_count = self.switch_count.wrapping_add(1);
        match step.action {
            UserAction::Fault => Some(ContextSwitchReason::Fault),
            UserAction::MakeSyscall(s) => Some(ContextSwitchReason::SyscallFired { syscall: s }),
            UserAction::Interrupted => Some(ContextSwitchReason::Interrupted),
            UserAction::InvalidSwitch => None,
        }
    }

    /// Helper read of the timer expiry flag (kept separate so the borrow
    /// of `chip` ends before the timer is rewritten).
    fn timer_is_expired(&self, chip: &Chip) -> (r: bool)
        ensures
            r == chip.timer.expired,
    {
        chip.timer.expired
    }

    /// Byte of process memory at absolute address `addr`, if the address
    /// lies inside the region.  Intended for inspecting the yield flag.
    pub fn get_byte(&self, addr: usize) -> (r: Option<u8>)
        ensures
            r == spec_get_byte(*self, addr),
    {
        if addr >= self.mem_base && addr - self.mem_base < self.mem.len() {
            Some(self.mem[addr - self.mem_base])
        } else {
            None
        }
    }
}

/// Total CPU cost, in microseconds, of the remaining user-program
/// script.
pub open spec fn script_cost(s: Seq<UserStep>) -> int
    decreases s.len(),
{
    if s.len() == 0 {
        0
    } else {
        s[0].cost_us + script_cost(s.drop_first())
    }
}

/// One executed step's cost splits off the front of the script's total.
pub proof fn lemma_script_cost_first(s: Seq<UserStep>)
    requires
        s.len() > 0,
    ensures
        script_cost(s) == s[0].cost_us + script_cost(s.drop_first()),
{
}

/// Replacing the front step (a partially executed one) leaves the rest
/// of the total untouched.
pub proof fn lemma_script_cost_update_first(s: Seq<UserStep>, step: UserStep)
    requires
        s.len() > 0,
    ensures
        script_cost(s.update(0, step)) == step.cost_us + script_cost(s.drop_first()),
{
    assert(s.update(0, step)[0] == step);
    assert(s.update(0, step).drop_first() =~= s.drop_first());
}

/// A memory region a process shared with a driver through an Allow
/// syscall: absolute address and length, already checked against the
/// process's accessible memory.
#[derive(Clone, Copy, Debug, PartialEq, Eq, Structural)]
pub struct ProcessSlice {
    pub ptr: usize,
    pub len: usize,
}

impl ProcessSlice {
    /// The empty slice a driver holds before a process ever shared one.
    pub fn empty() -> (r: ProcessSlice)
        ensures
            r == (ProcessSlice { ptr: 0, len: 0 }),
    {
        ProcessSlice { ptr: 0, len: 0 }
    }

    /// Decompose into the (address, length) pair echoed to userspace.
    pub fn consume(self) -> (r: (usize, usize))
        ensures
            r == (self.ptr, self.len),
    {
        (self.ptr, self.len)
    }
}

/// Whether `(addr, size)` lies entirely within the process-accessible
/// memory region (the empty slice is always allowed).
pub open spec fn slice_in_bounds(p: Process, addr: usize, size: usize) -> bool {
    size == 0 || (addr >= p.mem_base && addr as int + size as int <= p.mem_base as int
        + p.mem@.len())
}

/// The byte of process memory at absolute address `addr`, when in range.
pub open spec fn spec_get_byte(p: Process, addr: usize) -> Option<u8> {
    if addr >= p.mem_base && addr - p.mem_base < p.mem@.len() {
        Some(p.mem@[addr - p.mem_base])
    } else {
        None
    }
}

} // verus!
