//! The scheduling substrate: the `Scheduler` contract, the syscall
//! dispatcher, the per-process execution routine and the main kernel
//! loop.

use vstd::prelude::*;
use crate::chip::Chip;
use crate::capabilities::MainLoopCapability;
use crate::errorcode::ErrorCode;
use crate::ipc::Ipc;
use crate::kernel::{
    counters_unchanged, driver_step, pid_valid, slot_driver_step, Kernel,
};
use crate::memop;
use crate::platform::Platform;
use crate::chip::SchedulerTimer;
use crate::process::{
    script_cost, slice_in_bounds, Process, ProcessId, ProcessSlice, State, UserAction,
};
use crate::syscall::{
    spec_from_command_return, CommandReturn, ContextSwitchReason, Syscall, SyscallReturn,
};
use crate::upcall::{ipc_task_count, without_upcalls, Task, Upcall, UpcallId};

verus! {

/// Threshold in microseconds under which a remaining timeslice counts as
/// exhausted: a process whose slice is this short is not resumed.
pub const MIN_QUANTA_THRESHOLD_US: u32 = 500;

/// The action a scheduler requests from one call to `next()`.
#[derive(Clone, Copy, Debug)]
pub enum SchedulingDecision {
    /// Run this process, preemptively with the given timeslice in
    /// microseconds, or cooperatively when the timeslice is `None`.
    RunProcess(ProcessId, Option<u32>),
    /// Nothing to run: the kernel may put the chip to sleep.
    TrySleep,
}

/// Why the process-execution routine returned control to the scheduler.
#[derive(Clone, Copy, Debug, PartialEq, Eq, Structural)]
pub enum StoppedExecutingReason {
    /// The process is no longer ready to run.
    NoWorkLeft,
    /// The process faulted and was not restarted.
    StoppedFaulted,
    /// The kernel stopped the process.
    Stopped,
    /// The process was preempted because its timeslice expired.
    TimesliceExpired,
    /// Kernel work became ready, or the scheduler withdrew the slot.
    KernelPreemption,
}

/// The policy-neutral obligation on every scheduler decision: a process
/// that faulted or terminated is never selected (a stale identifier is
/// harmless, the kernel skips it).
pub open spec fn scheduler_decision_ok(k: Kernel, d: SchedulingDecision) -> bool {
    match d {
        SchedulingDecision::RunProcess(pid, _timeslice) => pid_valid(k, pid) ==> k.proc_at(
            pid.index as int,
        ).spec_active(),
        SchedulingDecision::TrySleep => true,
    }
}

/// What kernel work may touch on the chip: interrupt and deferred-call
/// bookkeeping, nothing else (not the MPU, the timer, the watchdog or
/// the sleep state).
pub open spec fn chip_kernel_work_only(pre: Chip, post: Chip) -> bool {
    post == (Chip {
        pending_interrupts: post.pending_interrupts,
        deferred_calls: post.deferred_calls,
        serviced_interrupts: post.serviced_interrupts,
        serviced_deferred_calls: post.serviced_deferred_calls,
        ..pre
    })
}

/// The contract every scheduling policy implements.
pub trait Scheduler: Sized {
    /// Decide which process to run next, or ask the kernel to sleep.
    fn next(&mut self, kernel: &Kernel) -> (d: SchedulingDecision)
        requires
            kernel.wf(),
        ensures
            scheduler_decision_ok(*kernel, d),
    ;

    /// Learn why the last process stopped and how long it ran (`None`
    /// when it ran cooperatively).
    fn result(&mut self, result: StoppedExecutingReason, execution_time_us: Option<u32>);

    /// Execute kernel work: interrupt bottom halves, then deferred calls
    /// while no new interrupts arrive.
    fn execute_kernel_work(&mut self, chip: &mut Chip)
        ensures
            chip_kernel_work_only(*old(chip), *final(chip)),
    {
        chip.service_pending_interrupts();
        while chip.has_deferred_calls() && !chip.has_pending_interrupts()
            invariant
                chip_kernel_work_only(*old(chip), *chip),
            decreases chip.deferred_calls,
        {
            chip.service_deferred_call();
        }
    }

    /// Whether to take a break from processes to handle kernel tasks.
    fn do_kernel_work_now(&mut self, chip: &Chip) -> (r: bool) {
        chip.has_pending_interrupts() || chip.has_deferred_calls()
    }

    /// Whether to keep executing the chosen process for another inner
    /// iteration.
    fn continue_process(&mut self, _id: ProcessId, chip: &Chip) -> (r: bool) {
        !(chip.has_pending_interrupts() || chip.has_deferred_calls())
    }
}

/// Effect of a syscall rejected by the platform filter: only the return
/// value is set; the process keeps its timeslice and its state.
pub open spec fn filtered_effect(pre: Kernel, post: Kernel, i: int, code: ErrorCode) -> bool {
    &&& post.processes@ == pre.processes@.update(
        i,
        Some(
            Process { syscall_return: Some(SyscallReturn::Failure(code)), ..pre.proc_at(i) },
        ),
    )
    &&& post.work == pre.work
    &&& counters_unchanged(pre, post)
}

/// Whether the yield flag address points into process memory.
pub open spec fn flag_in_range(p: Process, addr: usize) -> bool {
    addr >= p.mem_base && addr - p.mem_base < p.mem@.len()
}

/// Effect of the Yield syscall.  An out-of-range selector does nothing.
/// Yield-no-wait with an empty task queue writes 0 to the flag and
/// returns immediately; otherwise the flag is set to 1 and the process
/// yields.
pub open spec fn yield_effect(pre: Kernel, post: Kernel, i: int, which: usize, address: usize) -> bool {
    if which > 1 {
        &&& post.processes@ == pre.processes@
        &&& post.work == pre.work
        &&& counters_unchanged(pre, post)
    } else if which == 0 && pre.proc_at(i).tasks@.len() == 0 {
        &&& post.work == pre.work
        &&& counters_unchanged(pre, post)
        &&& if flag_in_range(pre.proc_at(i), address) {
            &&& post.processes@ == pre.processes@.update(
                i,
                Some(Process { mem: post.proc_at(i).mem, ..pre.proc_at(i) }),
            )
            &&& post.proc_at(i).mem@ == pre.proc_at(i).mem@.update(
                address - pre.proc_at(i).mem_base,
                0u8,
            )
        } else {
            post.processes@ == pre.processes@
        }
    } else {
        &&& post.work == pre.work - 1
        &&& counters_unchanged(pre, post)
        &&& post.processes@ == pre.processes@.update(
            i,
            Some(
                Process {
                    state: State::Yielded,
                    mem: post.proc_at(i).mem,
                    ..pre.proc_at(i)
                },
            ),
        )
        &&& post.proc_at(i).mem@ == if flag_in_range(pre.proc_at(i), address) {
            pre.proc_at(i).mem@.update(address - pre.proc_at(i).mem_base, 1u8)
        } else {
            pre.proc_at(i).mem@
        }
    }
}

/// Effect of the Exit syscall: terminate, try-restart, or decline.
pub open spec fn exit_effect(
    pre: Kernel,
    post: Kernel,
    i: int,
    which: usize,
    completion_code: usize,
) -> bool {
    if which == 0 {
        &&& post.processes@ == pre.processes@.update(
            i,
            Some(
                Process {
                    state: State::Terminated,
                    tasks: post.proc_at(i).tasks,
                    completion_code: Some(completion_code as u32),
                    ..pre.proc_at(i)
                },
            ),
        )
        &&& post.proc_at(i).tasks@.len() == 0
        &&& counters_unchanged(pre, post)
    } else if which == 1 {
        &&& post.processes@ == pre.processes@.update(
            i,
            Some(
                Process {
                    state: State::Unstarted,
                    identifier: pre.process_identifier_max,
                    tasks: post.proc_at(i).tasks,
                    completion_code: Some(completion_code as u32),
                    ..pre.proc_at(i)
                },
            ),
        )
        &&& post.proc_at(i).tasks@.len() == 0
        &&& post.process_identifier_max == pre.process_identifier_max.wrapping_add(1)
        &&& post.grant_counter == pre.grant_counter
        &&& post.grants_finalized == pre.grants_finalized
    } else {
        &&& post.processes@ == pre.processes@.update(
            i,
            Some(
                Process {
                    syscall_return: Some(SyscallReturn::Failure(ErrorCode::NOSUPPORT)),
                    ..pre.proc_at(i)
                },
            ),
        )
        &&& post.work == pre.work
        &&& counters_unchanged(pre, post)
    }
}

/// Effect of the Subscribe syscall once past the filter: pending upcalls
/// for the slot are dropped first, then the driver's answer (or
/// `NODEVICE`) is stored as the return value.  The driver only reads the
/// kernel, so nothing else changes.
pub open spec fn subscribe_effect(
    pre: Kernel,
    post: Kernel,
    i: int,
    driver_number: usize,
    subdriver_number: usize,
    upcall_ptr: usize,
    appdata: usize,
    has_driver: bool,
) -> bool {
    let id = UpcallId { driver_num: driver_number, subscribe_num: subdriver_number };
    let cleaned = without_upcalls(pre.proc_at(i).tasks@, id);
    let echo_data = if upcall_ptr == 0 {
        0
    } else {
        appdata
    };
    &&& post.processes@ == pre.processes@.update(
        i,
        Some(
            Process {
                tasks: post.proc_at(i).tasks,
                syscall_return: post.proc_at(i).syscall_return,
                ..pre.proc_at(i)
            },
        ),
    )
    &&& post.proc_at(i).tasks@ == cleaned
    &&& post.work == pre.work - (pre.proc_at(i).tasks@.len() - cleaned.len())
    &&& counters_unchanged(pre, post)
    &&& !has_driver ==> post.proc_at(i).syscall_return == Some(
        SyscallReturn::SubscribeFailure(ErrorCode::NODEVICE, upcall_ptr, echo_data),
    )
    &&& has_driver ==> (post.proc_at(i).syscall_return matches Some(sr) && (sr is SubscribeSuccess
        || (sr matches SyscallReturn::SubscribeFailure(_e, p2, d2) && p2 == upcall_ptr && d2
        == echo_data)))
}

/// Effect of the Command syscall once past the filter: the driver takes
/// one driver step, then its (typed) answer is stored.
pub open spec fn command_effect(pre: Kernel, post: Kernel, i: int, has_driver: bool) -> bool {
    if has_driver {
        exists|mid: Kernel, c: CommandReturn|
            {
                &&& #[trigger] driver_step(pre, mid)
                &&& post.processes@ == mid.processes@.update(
                    i,
                    Some(
                        Process {
                            syscall_return: Some(#[trigger] spec_from_command_return(c)),
                            ..mid.proc_at(i)
                        },
                    ),
                )
                &&& post.work == mid.work
                &&& counters_unchanged(mid, post)
            }
    } else {
        &&& post.processes@ == pre.processes@.update(
            i,
            Some(
                Process {
                    syscall_return: Some(SyscallReturn::Failure(ErrorCode::NODEVICE)),
                    ..pre.proc_at(i)
                },
            ),
        )
        &&& post.work == pre.work
        &&& counters_unchanged(pre, post)
    }
}

/// Effect of an Allow syscall once past the filter: only the return
/// value changes.  `held` is the buffer the platform's driver held for
/// the caller before the call; on acceptance exactly that buffer is
/// echoed back.  `read_write` selects which failure/success variants
/// are used.
pub open spec fn allow_effect(
    pre: Kernel,
    post: Kernel,
    i: int,
    allow_address: usize,
    allow_size: usize,
    has_driver: bool,
    read_write: bool,
    held: ProcessSlice,
) -> bool {
    &&& post.processes@ == pre.processes@.update(
        i,
        Some(Process { syscall_return: post.proc_at(i).syscall_return, ..pre.proc_at(i) }),
    )
    &&& post.work == pre.work
    &&& counters_unchanged(pre, post)
    &&& !has_driver ==> post.proc_at(i).syscall_return == Some(
        spec_allow_failure(read_write, ErrorCode::NODEVICE, allow_address, allow_size),
    )
    &&& (has_driver && !slice_in_bounds(pre.proc_at(i), allow_address, allow_size))
        ==> post.proc_at(i).syscall_return == Some(
        spec_allow_failure(read_write, ErrorCode::INVAL, allow_address, allow_size),
    )
    &&& (has_driver && slice_in_bounds(pre.proc_at(i), allow_address, allow_size)) ==> (
    post.proc_at(i).syscall_return matches Some(sr) && (sr == spec_allow_success(
        read_write,
        held.ptr,
        held.len,
    ) || allow_rejected_shape(sr, read_write, allow_address, allow_size)))
}

/// A rejected Allow answer: the failure variant echoing the new slice.
pub open spec fn allow_rejected_shape(
    sr: SyscallReturn,
    read_write: bool,
    allow_address: usize,
    allow_size: usize,
) -> bool {
    if read_write {
        sr matches SyscallReturn::AllowReadWriteFailure(_e, p, l) && p == allow_address && l
            == allow_size
    } else {
        sr matches SyscallReturn::AllowReadOnlyFailure(_e, p, l) && p == allow_address && l
            == allow_size
    }
}

impl Kernel {
    /// Service a syscall the process in slot `idx` just made.
    ///
    /// The platform's filter policy is applied to every syscall other
    /// than Yield, Exit and Memop; a filtered syscall only gets its
    /// failure code stored.  Otherwise the syscall's effect is exactly
    /// the corresponding effect relation: the dispatcher always stores a
    /// return value before the process resumes, except for Yield (which
    /// has none) and Exit (which ends or restarts the process).
    #[verifier::rlimit(100)]
    pub fn handle_syscall<P: Platform>(&mut self, platform: &mut P, idx: usize, syscall: Syscall)
        requires
            old(self).wf(),
            (idx as int) < old(self).processes@.len(),
            old(self).processes@[idx as int] is Some,
            old(self).proc_at(idx as int).state == State::Running,
        ensures
            final(self).wf(),
            final(self).processes@.len() == old(self).processes@.len(),
            final(self).processes@[idx as int] is Some,
            final(self).proc_at(idx as int).script@ == old(self).proc_at(idx as int).script@,
            ipc_task_count(final(self).proc_at(idx as int).tasks@) <= ipc_task_count(
                old(self).proc_at(idx as int).tasks@,
            ),
            forall|j: int|
                0 <= j < old(self).processes@.len() && j != idx as int ==> (final(self).processes@[j] == old(self).processes@[j] || slot_driver_step(
                    #[trigger] old(self).processes@[j],
                    final(self).processes@[j],
                )),
            final(self).grant_counter == old(self).grant_counter,
            final(self).grants_finalized == old(self).grants_finalized,
            final(self).proc_at(idx as int).state != State::Faulted,
            final(platform).spec_handles_process_faults() == old(platform).spec_handles_process_faults(),
            syscall matches Syscall::Yield { which, address } ==> yield_effect(
                *old(self),
                *final(self),
                idx as int,
                which,
                address,
            ),
            syscall matches Syscall::Exit { which, completion_code } ==> exit_effect(
                *old(self),
                *final(self),
                idx as int,
                which,
                completion_code,
            ),
            syscall matches Syscall::Memop { operand, arg0 } ==> {
                &&& final(self).processes@ == old(self).processes@.update(
                    idx as int,
                    Some(
                        Process {
                            syscall_return: Some(memop::spec_memop(operand, arg0)),
                            ..old(self).proc_at(idx as int)
                        },
                    ),
                )
                &&& final(self).work == old(self).work
                &&& counters_unchanged(*old(self), *final(self))
            },
            syscall matches Syscall::Subscribe {
                driver_number,
                subdriver_number,
                upcall_ptr,
                appdata,
            } ==> match old(platform).spec_filter_syscall(
                old(self).proc_at(idx as int),
                syscall,
            ) {
                Some(code) => filtered_effect(*old(self), *final(self), idx as int, code),
                None => subscribe_effect(
                    *old(self),
                    *final(self),
                    idx as int,
                    driver_number,
                    subdriver_number,
                    upcall_ptr,
                    appdata,
                    old(platform).spec_has_driver(driver_number),
                ),
            },
            syscall matches Syscall::Command { driver_number, .. } ==> match old(platform).spec_filter_syscall(old(self).proc_at(idx as int), syscall) {
                Some(code) => filtered_effect(*old(self), *final(self), idx as int, code),
                None => command_effect(
                    *old(self),
                    *final(self),
                    idx as int,
                    old(platform).spec_has_driver(driver_number),
                ),
            },
            syscall matches Syscall::ReadWriteAllow {
                driver_number,
                subdriver_number,
                allow_address,
                allow_size,
            } ==> match old(platform).spec_filter_syscall(
                old(self).proc_at(idx as int),
                syscall,
            ) {
                Some(code) => filtered_effect(*old(self), *final(self), idx as int, code),
                None => allow_effect(
                    *old(self),
                    *final(self),
                    idx as int,
                    allow_address,
                    allow_size,
                    old(platform).spec_has_driver(driver_number),
                    true,
                    old(platform).spec_held_readwrite(
                        driver_number,
                        subdriver_number,
                        old(self).proc_at(idx as int).spec_processid(),
                    ),
                ),
            },
            syscall matches Syscall::ReadOnlyAllow {
                driver_number,
                subdriver_number,
                allow_address,
                allow_size,
            } ==> match old(platform).spec_filter_syscall(
                old(self).proc_at(idx as int),
                syscall,
            ) {
                Some(code) => filtered_effect(*old(self), *final(self), idx as int, code),
                None => allow_effect(
                    *old(self),
                    *final(self),
                    idx as int,
                    allow_address,
                    allow_size,
                    old(platform).spec_has_driver(driver_number),
                    false,
                    old(platform).spec_held_readonly(
                        driver_number,
                        subdriver_number,
                        old(self).proc_at(idx as int).spec_processid(),
                    ),
                ),
            },
    {
        let ghost pre = *self;
        let ghost i = idx as int;
        // Filter pass: Yield, Exit and Memop are never filtered.
        let filtered: Option<ErrorCode> = match syscall {
            Syscall::Yield { .. } => None,
            Syscall::Exit { .. } => None,
            Syscall::Memop { .. } => None,
            _ => {
                let fres = match self.proc_ref(idx) {
                    Some(p) => platform.filter_syscall(p, &syscall),
                    None => vstd::pervasive::unreached(),
                };
                match fres {
                    Ok(()) => None,
                    Err(code) => Some(code),
                }
            },
        };
        if let Some(code) = filtered {
            self.set_syscall_return_value(idx, SyscallReturn::Failure(code));
            proof {
                assert(filtered_effect(pre, *self, i, code));
            }
            return ;
        }
        match syscall {
            Syscall::Memop { operand, arg0 } => {
                let rv = match self.proc_ref(idx) {
                    Some(p) => memop::memop(p, operand, arg0),
                    None => vstd::pervasive::unreached(),
                };
                self.set_syscall_return_value(idx, rv);
            },
            Syscall::Yield { which, address } => {
                if which > 1 {
                    // Not a valid yield call; Yield has no return value,
                    // so just resume the process.
                    return ;
                }
                let wait = which == 1;
                let has_queued = match self.proc_ref(idx) {
                    Some(p) => p.has_tasks(),
                    None => vstd::pervasive::unreached(),
                };
                let return_now = !wait && !has_queued;
                if return_now {
                    // Report "no upcall was run" and return immediately.
                    let _ = self.set_byte(idx, address, 0);
                } else {
                    // Report that upcalls will run, then yield.
                    let _ = self.set_byte(idx, address, 1);
                    let ghost mid = *self;
                    self.set_yielded_state(idx);
                    proof {
                        assert(pre.processes@.update(i, mid.processes@[i]).update(
                            i,
                            self.processes@[i],
                        ) =~= pre.processes@.update(i, self.processes@[i]));
                    }
                }
            },
            Syscall::Subscribe { driver_number, subdriver_number, upcall_ptr, appdata } => {
                let upcall_id = UpcallId {
                    driver_num: driver_number,
                    subscribe_num: subdriver_number,
                };
                // Drop queued upcalls for this slot so no stale callback
                // with the old function pointer can fire.
                let _removed = self.remove_pending_upcalls(idx, upcall_id);
                let ghost mid = *self;
                let pid = match self.proc_ref(idx) {
                    Some(p) => p.processid(),
                    None => vstd::pervasive::unreached(),
                };
                let upcall = if upcall_ptr == 0 {
                    Upcall::null(pid, upcall_id)
                } else {
                    Upcall::new(pid, upcall_id, appdata, upcall_ptr)
                };
                let rval = if platform.has_driver(driver_number) {
                    match platform.driver_subscribe(
                        driver_number,
                        subdriver_number,
                        upcall,
                        pid,
                        self,
                    ) {
                        Ok(oldcb) => SyscallReturn::SubscribeSuccess(oldcb.fn_ptr, oldcb.appdata),
                        Err((newcb, err)) => SyscallReturn::SubscribeFailure(
                            err,
                            newcb.fn_ptr,
                            newcb.appdata,
                        ),
                    }
                } else {
                    SyscallReturn::SubscribeFailure(
                        ErrorCode::NODEVICE,
                        upcall.fn_ptr,
                        upcall.appdata,
                    )
                };
                self.set_syscall_return_value(idx, rval);
                proof {
                    crate::upcall::lemma_without_upcalls_ipc(pre.proc_at(i).tasks@, upcall_id);
                    assert(pre.processes@.update(i, mid.processes@[i]).update(
                        i,
                        self.processes@[i],
                    ) =~= pre.processes@.update(i, self.processes@[i]));
                    assert(subscribe_effect(
                        pre,
                        *self,
                        i,
                        driver_number,
                        subdriver_number,
                        upcall_ptr,
                        appdata,
                        old(platform).spec_has_driver(driver_number),
                    ));
                }
            },
            Syscall::Command { driver_number, subdriver_number, arg0, arg1 } => {
                let pid = match self.proc_ref(idx) {
                    Some(p) => p.processid(),
                    None => vstd::pervasive::unreached(),
                };
                if platform.has_driver(driver_number) {
                    let cres = platform.driver_command(
                        driver_number,
                        subdriver_number,
                        arg0,
                        arg1,
                        pid,
                        self,
                    );
                    let ghost mid = *self;
                    let res = SyscallReturn::from_command_return(cres);
                    self.set_syscall_return_value(idx, res);
                    proof {
                        assert(slot_driver_step(pre.processes@[i], mid.processes@[i]));
                        crate::upcall::lemma_ipc_count_fc_extension(
                            pre.proc_at(i).tasks@,
                            mid.proc_at(i).tasks@,
                        );
                        assert(driver_step(pre, mid));
                        assert(spec_from_command_return(cres) == res);
                        assert(command_effect(pre, *self, i, true));
                    }
                } else {
                    let cres = CommandReturn::failure(ErrorCode::NODEVICE);
                    let res = SyscallReturn::from_command_return(cres);
                    self.set_syscall_return_value(idx, res);
                }
            },
            Syscall::ReadWriteAllow {
                driver_number,
                subdriver_number,
                allow_address,
                allow_size,
            } => {
                let pid = match self.proc_ref(idx) {
                    Some(p) => p.processid(),
                    None => vstd::pervasive::unreached(),
                };
                let res = if platform.has_driver(driver_number) {
                    match self.build_readwrite_appslice(idx, allow_address, allow_size) {
                        Ok(slice) => {
                            match platform.driver_allow_readwrite(
                                driver_number,
                                subdriver_number,
                                slice,
                                pid,
                                self,
                            ) {
                                Ok(old_slice) => {
                                    let (ptr, len) = old_slice.consume();
                                    SyscallReturn::AllowReadWriteSuccess(ptr, len)
                                },
                                Err((rejected, err)) => {
                                    let (ptr, len) = rejected.consume();
                                    SyscallReturn::AllowReadWriteFailure(err, ptr, len)
                                },
                            }
                        },
                        Err(allow_error) => SyscallReturn::AllowReadWriteFailure(
                            allow_error,
                            allow_address,
                            allow_size,
                        ),
                    }
                } else {
                    SyscallReturn::AllowReadWriteFailure(
                        ErrorCode::NODEVICE,
                        allow_address,
                        allow_size,
                    )
                };
                self.set_syscall_return_value(idx, res);
            },
            Syscall::ReadOnlyAllow {
                driver_number,
                subdriver_number,
                allow_address,
                allow_size,
            } => {
                let pid = match self.proc_ref(idx) {
                    Some(p) => p.processid(),
                    None => vstd::pervasive::unreached(),
                };
                let res = if platform.has_driver(driver_number) {
                    match self.build_readonly_appslice(idx, allow_address, allow_size) {
                        Ok(slice) => {
                            match platform.driver_allow_readonly(
                                driver_number,
                                subdriver_number,
                                slice,
                                pid,
                                self,
                            ) {
                                Ok(old_slice) => {
                                    let (ptr, len) = old_slice.consume();
                                    SyscallReturn::AllowReadOnlySuccess(ptr, len)
                                },
                                Err((rejected, err)) => {
                                    let (ptr, len) = rejected.consume();
                                    SyscallReturn::AllowReadOnlyFailure(err, ptr, len)
                                },
                            }
                        },
                        Err(allow_error) => SyscallReturn::AllowReadOnlyFailure(
                            allow_error,
                            allow_address,
                            allow_size,
                        ),
                    }
                } else {
                    SyscallReturn::AllowReadOnlyFailure(
                        ErrorCode::NODEVICE,
                        allow_address,
                        allow_size,
                    )
                };
                self.set_syscall_return_value(idx, res);
            },
            Syscall::Exit { which, completion_code } => {
                if which == 0 {
                    // exit-terminate
                    self.terminate(idx, #[verifier::truncate] (completion_code as u32));
                } else if which == 1 {
                    // exit-restart
                    self.try_restart(idx, #[verifier::truncate] (completion_code as u32));
                } else {
                    self.set_syscall_return_value(
                        idx,
                        SyscallReturn::Failure(ErrorCode::NOSUPPORT),
                    );
                }
            },
        }
    }
}

impl Kernel {
    /// Transfer control from the kernel to the process in slot `idx` and
    /// drive it until a stop condition: it runs out of work, exhausts
    /// its timeslice, is preempted by the scheduler, stops, or faults.
    ///
    /// With `timeslice_us` of `None` the process runs cooperatively
    /// against a null timer that never fires: the chip timer is left
    /// untouched, no expiry is ever reported and no time is charged.
    /// With a timeslice, the returned pair gives the stop reason and the
    /// time charged: a timeslice that expired is charged in full (and
    /// expiry is only reported once the program consumed the slice down
    /// to the minimum quantum); any other stop is charged exactly the
    /// time the program's completed steps consumed.  The chip timer is
    /// reset before returning, so no stale preemption interrupt can fire
    /// later (e.g. while the chip sleeps).
    #[verifier::rlimit(100)]
    pub fn do_process<P: Platform, S: Scheduler>(
        &mut self,
        platform: &mut P,
        chip: &mut Chip,
        scheduler: &mut S,
        idx: usize,
        ipc: Option<&Ipc>,
        timeslice_us: Option<u32>,
    ) -> (r: (StoppedExecutingReason, Option<u32>))
        requires
            old(self).wf(),
            (idx as int) < old(self).processes@.len(),
            old(self).processes@[idx as int] is Some,
            ipc is None ==> crate::kernel::kernel_no_ipc_tasks(*old(self)),
        ensures
            final(self).wf(),
            final(self).processes@.len() == old(self).processes@.len(),
            final(self).processes@[idx as int] is Some,
            final(self).grant_counter == old(self).grant_counter,
            final(self).grants_finalized == old(self).grants_finalized,
            ipc is None ==> crate::kernel::kernel_no_ipc_tasks(*final(self)),
            timeslice_us is None ==> r.1 is None,
            timeslice_us matches Some(ts) ==> (r.1 matches Some(t) && t <= ts),
            timeslice_us matches Some(ts) ==> (r.0 == StoppedExecutingReason::TimesliceExpired
                ==> r.1 == Some(ts)),
            (old(chip).mpu.enable_count == old(chip).mpu.disable_count && !old(chip).mpu.enabled) ==> (final(chip).mpu.enable_count == final(chip).mpu.disable_count
                && !final(chip).mpu.enabled),
            final(chip).pending_interrupts == old(chip).pending_interrupts,
            final(chip).arriving_interrupts == old(chip).arriving_interrupts,
            final(chip).deferred_calls == old(chip).deferred_calls,
            final(chip).sleep_count == old(chip).sleep_count,
            final(chip).watchdog == old(chip).watchdog,
            final(chip).serviced_interrupts == old(chip).serviced_interrupts,
            final(chip).serviced_deferred_calls == old(chip).serviced_deferred_calls,
            r.0 == StoppedExecutingReason::NoWorkLeft ==> !final(self).proc_at(
                idx as int,
            ).spec_ready(),
            r.0 == StoppedExecutingReason::TimesliceExpired ==> timeslice_us is Some,
            timeslice_us is None ==> final(chip).timer == old(chip).timer,
            timeslice_us is Some ==> final(chip).timer == (SchedulerTimer {
                remaining: 0,
                expired: false,
                armed: false,
            }),
            timeslice_us matches Some(ts) ==> (r.0 != StoppedExecutingReason::TimesliceExpired
                ==> r.1 == Some(
                ((script_cost(old(self).proc_at(idx as int).script@) - script_cost(
                    final(self).proc_at(idx as int).script@,
                )) as u32),
            )),
            timeslice_us matches Some(ts) ==> (r.0 == StoppedExecutingReason::TimesliceExpired
                ==> script_cost(old(self).proc_at(idx as int).script@) - script_cost(
                final(self).proc_at(idx as int).script@,
            ) >= ts - MIN_QUANTA_THRESHOLD_US),
            (old(self).proc_at(idx as int).state == State::StoppedRunning || old(self).proc_at(
                idx as int,
            ).state == State::StoppedYielded) ==> {
                &&& (r.0 == StoppedExecutingReason::Stopped || r.0
                    == StoppedExecutingReason::KernelPreemption || r.0
                    == StoppedExecutingReason::TimesliceExpired || r.0
                    == StoppedExecutingReason::NoWorkLeft)
                &&& final(self).processes@ == old(self).processes@.update(
                    idx as int,
                    Some(
                        Process {
                            timeslice_expirations: final(self).proc_at(
                                idx as int,
                            ).timeslice_expirations,
                            ..old(self).proc_at(idx as int)
                        },
                    ),
                )
            },
            (old(platform).spec_handles_process_faults() && old(self).proc_at(idx as int).state
                != State::Faulted && (forall|t: int|
                0 <= t < old(self).proc_at(idx as int).script@.len() ==> (#[trigger] old(self).proc_at(idx as int).script@[t]).action != UserAction::InvalidSwitch)) ==> (
            final(self).proc_at(idx as int).state == State::Faulted ==> final(self).proc_at(
                idx as int,
            ).script@.len() == 0),
            final(platform).spec_handles_process_faults() == old(platform).spec_handles_process_faults(),
            r.0 == StoppedExecutingReason::Stopped ==> (final(self).proc_at(idx as int).state
                == State::StoppedRunning || final(self).proc_at(idx as int).state
                == State::StoppedYielded),
            timeslice_us matches Some(ts) ==> ts <= MIN_QUANTA_THRESHOLD_US ==> {
                &&& r.0 == StoppedExecutingReason::TimesliceExpired
                &&& final(self).processes@ == old(self).processes@.update(
                    idx as int,
                    Some(
                        Process {
                            timeslice_expirations: old(self).proc_at(
                                idx as int,
                            ).timeslice_expirations.wrapping_add(1),
                            ..old(self).proc_at(idx as int)
                        },
                    ),
                )
            },
    {
        // A process executed without a timeslice runs against a null
        // timer that never fires; the chip timer is then untouched.
        let real_timer = timeslice_us.is_some();
        chip.timer_reset(real_timer);
        let timeslice: u32 = match timeslice_us {
            Some(ts) => ts,
            None => 0,
        };
        match timeslice_us {
            Some(ts) => chip.timer_start(true, ts),
            None => {},
        }
        let ghost self0 = *self;
        let ghost chip0 = *chip;
        let ghost cost0 = script_cost(self0.proc_at(idx as int).script@);
        let ghost state0 = self0.proc_at(idx as int).state;
        let ghost handles0 = platform.spec_handles_process_faults();
        let ghost fault_protected = handles0 && state0 != State::Faulted && (forall|t: int|
            0 <= t < self0.proc_at(idx as int).script@.len() ==> (#[trigger] self0.proc_at(
                idx as int,
            ).script@[t]).action != UserAction::InvalidSwitch);
        let mut return_reason = StoppedExecutingReason::NoWorkLeft;
        loop
            invariant_except_break
                (real_timer && timeslice <= MIN_QUANTA_THRESHOLD_US) ==> {
                    &&& chip.timer.remaining == timeslice
                    &&& !chip.timer.expired
                    &&& self.processes@ == self0.processes@
                },
                (state0 == State::StoppedRunning || state0 == State::StoppedYielded)
                    ==> self.processes@ == self0.processes@,
            invariant
                self.wf(),
                (idx as int) < self.processes@.len(),
                self.processes@[idx as int] is Some,
                self.processes@.len() == self0.processes@.len(),
                self.grant_counter == self0.grant_counter,
                self.grants_finalized == self0.grants_finalized,
                ipc is None ==> crate::kernel::kernel_no_ipc_tasks(*self),
                chip.pending_interrupts == chip0.pending_interrupts,
                chip.arriving_interrupts == chip0.arriving_interrupts,
                chip.deferred_calls == chip0.deferred_calls,
                chip.sleep_count == chip0.sleep_count,
                chip.watchdog == chip0.watchdog,
                chip.serviced_interrupts == chip0.serviced_interrupts,
                chip.serviced_deferred_calls == chip0.serviced_deferred_calls,
                (chip0.mpu.enable_count == chip0.mpu.disable_count && !chip0.mpu.enabled)
                    ==> (chip.mpu.enable_count == chip.mpu.disable_count && !chip.mpu.enabled),
                real_timer ==> (chip.timer.expired || chip.timer.remaining <= timeslice),
                !real_timer ==> chip.timer == chip0.timer,
                real_timer ==> timeslice_us == Some(timeslice),
                state0 == self0.proc_at(idx as int).state,
                cost0 == script_cost(self0.proc_at(idx as int).script@),
                fault_protected == (handles0 && state0 != State::Faulted && (forall|t: int|
                    0 <= t < self0.proc_at(idx as int).script@.len() ==> (#[trigger] self0.proc_at(
                        idx as int,
                    ).script@[t]).action != UserAction::InvalidSwitch)),
                real_timer && !chip.timer.expired ==> cost0 - script_cost(
                    self.proc_at(idx as int).script@,
                ) == timeslice - chip.timer.remaining,
                real_timer && chip.timer.expired ==> cost0 - script_cost(
                    self.proc_at(idx as int).script@,
                ) == timeslice as int,
                platform.spec_handles_process_faults() == handles0,
                fault_protected ==> forall|t: int|
                    0 <= t < self.proc_at(idx as int).script@.len() ==> (#[trigger] self.proc_at(
                        idx as int,
                    ).script@[t]).action != UserAction::InvalidSwitch,
                fault_protected ==> (self.proc_at(idx as int).state == State::Faulted
                    ==> self.proc_at(idx as int).script@.len() == 0),
            ensures
                return_reason == StoppedExecutingReason::NoWorkLeft ==> !self.proc_at(
                    idx as int,
                ).spec_ready(),
                !real_timer ==> return_reason != StoppedExecutingReason::TimesliceExpired,
                real_timer && return_reason != StoppedExecutingReason::TimesliceExpired ==> (
                !chip.timer.expired && cost0 - script_cost(self.proc_at(idx as int).script@)
                    == timeslice - chip.timer.remaining),
                real_timer && return_reason == StoppedExecutingReason::TimesliceExpired ==> cost0
                    - script_cost(self.proc_at(idx as int).script@) >= timeslice
                    - MIN_QUANTA_THRESHOLD_US,
                (state0 == State::StoppedRunning || state0 == State::StoppedYielded) ==> {
                    &&& (return_reason == StoppedExecutingReason::Stopped || return_reason
                        == StoppedExecutingReason::KernelPreemption || return_reason
                        == StoppedExecutingReason::TimesliceExpired || return_reason
                        == StoppedExecutingReason::NoWorkLeft)
                    &&& (self.processes@ == self0.processes@ || self.processes@
                        == self0.processes@.update(
                        idx as int,
                        Some(
                            Process {
                                timeslice_expirations: self0.proc_at(
                                    idx as int,
                                ).timeslice_expirations.wrapping_add(1),
                                ..self0.proc_at(idx as int)
                            },
                        ),
                    ))
                },
                return_reason == StoppedExecutingReason::Stopped ==> (self.proc_at(
                    idx as int,
                ).state == State::StoppedRunning || self.proc_at(idx as int).state
                    == State::StoppedYielded),
                (real_timer && timeslice <= MIN_QUANTA_THRESHOLD_US) ==> {
                    &&& return_reason == StoppedExecutingReason::TimesliceExpired
                    &&& self.processes@ == self0.processes@.update(
                        idx as int,
                        Some(
                            Process {
                                timeslice_expirations: self0.proc_at(
                                    idx as int,
                                ).timeslice_expirations.wrapping_add(1),
                                ..self0.proc_at(idx as int)
                            },
                        ),
                    )
                },
            decreases
                (if self.proc_at(idx as int).spec_ready() {
                    1int
                } else {
                    0int
                }),
                self.proc_at(idx as int).script@.len(),
                ipc_task_count(self.proc_at(idx as int).tasks@),
                self.proc_at(idx as int).tasks@.len(),
        {
            // (a) Stop if the remaining timeslice is exhausted or too
            // short to be worth a context switch.
            let stop_running = match chip.timer_get_remaining(real_timer) {
                Some(us) => us <= MIN_QUANTA_THRESHOLD_US,
                None => true,
            };
            if stop_running {
                self.debug_timeslice_expired(idx);
                return_reason = StoppedExecutingReason::TimesliceExpired;
                break ;
            }
            // (b) Ask the scheduler whether to keep running this process.
            let pid = match self.proc_ref(idx) {
                Some(p) => p.processid(),
                None => vstd::pervasive::unreached(),
            };
            if !scheduler.continue_process(pid, chip) {
                return_reason = StoppedExecutingReason::KernelPreemption;
                break ;
            }
            // (c) A process that is not ready (e.g. stopped after a
            // fault) is not run.
            let (is_ready, state) = match self.proc_ref(idx) {
                Some(p) => (p.ready(), p.state),
                None => vstd::pervasive::unreached(),
            };
            if !is_ready {
                return_reason = StoppedExecutingReason::NoWorkLeft;
                break ;
            }
            match state {
                State::Running => {
                    // Configure and enable memory protection, arm the
                    // preemption interrupt, and switch to user mode.
                    chip.enable_app_mpu();
                    chip.timer_arm(real_timer);
                    let ghost mid0 = *self;
                    let csr = {
                        let p = self.proc_mut(idx);
                        p.switch_to(chip, real_timer)
                    };
                    chip.timer_disarm(real_timer);
                    chip.disable_app_mpu();
                    proof {
                        crate::kernel::lemma_total_work_update(
                            mid0.processes@,
                            idx as int,
                            self.processes@[idx as int],
                        );
                        if mid0.proc_at(idx as int).script@.len() > 0 {
                            crate::process::lemma_script_cost_first(
                                mid0.proc_at(idx as int).script@,
                            );
                            crate::process::lemma_script_cost_update_first(
                                mid0.proc_at(idx as int).script@,
                                self.proc_at(idx as int).script@[0],
                            );
                        }
                    }
                    match csr {
                        Some(ContextSwitchReason::Fault) => {
                            // The app faulted; give the platform a
                            // chance to handle it, else fault the app.
                            let handled = match self.proc_ref(idx) {
                                Some(p) => platform.process_fault_hook(p),
                                None => vstd::pervasive::unreached(),
                            };
                            if !handled {
                                self.set_fault_state(idx);
                            }
                        },
                        Some(ContextSwitchReason::SyscallFired { syscall }) => {
                            let ghost pre_syscall = *self;
                            self.handle_syscall(platform, idx, syscall);
                            proof {
                                if ipc is None {
                                    assert forall|j: int|
                                        0 <= j < self.processes@.len() implies
                                        crate::kernel::slot_ipc_zero(
                                            #[trigger] self.processes@[j],
                                        ) by {
                                        if j != idx as int && !(self.processes@[j]
                                            == pre_syscall.processes@[j]) {
                                            match (
                                                pre_syscall.processes@[j],
                                                self.processes@[j],
                                            ) {
                                                (Some(p), Some(q)) => {
                                                    crate::upcall::lemma_ipc_count_fc_extension(
                                                        p.tasks@,
                                                        q.tasks@,
                                                    );
                                                },
                                                _ => {},
                                            }
                                        }
                                    }
                                }
                            }
                        },
                        Some(ContextSwitchReason::Interrupted) => {
                            let expired = match chip.timer_get_remaining(real_timer) {
                                Some(_) => false,
                                None => true,
                            };
                            if expired {
                                // The interrupt was the timeslice expiry.
                                self.debug_timeslice_expired(idx);
                                return_reason = StoppedExecutingReason::TimesliceExpired;
                                break ;
                            }
                            // Re-consult the scheduler before resuming.
                            continue ;
                        },
                        None => {
                            // The switch failed outright.
                            self.set_fault_state(idx);
                        },
                    }
                },
                State::Yielded | State::Unstarted => {
                    // Waiting for an upcall: execute a queued task if
                    // one exists.
                    let ghost before_dequeue = *self;
                    match self.dequeue_task(idx) {
                        None => {
                            break ;
                        },
                        Some(t) => match t {
                            Task::FunctionCall(ccb) => {
                                proof {
                                    assert(ipc_task_count(
                                        before_dequeue.proc_at(idx as int).tasks@,
                                    ) == ipc_task_count(self.proc_at(idx as int).tasks@));
                                }
                                self.set_process_function(idx, ccb);
                            },
                            Task::IPC(otherapp, ipc_type) => {
                                let ghost after_dequeue = *self;
                                let pid2 = match self.proc_ref(idx) {
                                    Some(p) => p.processid(),
                                    None => vstd::pervasive::unreached(),
                                };
                                match ipc {
                                    Some(ipc_module) => {
                                        let _ = ipc_module.schedule_upcall(
                                            self,
                                            pid2,
                                            otherapp,
                                            ipc_type,
                                        );
                                        proof {
                                            assert(crate::kernel::slot_driver_step(
                                                after_dequeue.processes@[idx as int],
                                                self.processes@[idx as int],
                                            ));
                                            crate::upcall::lemma_ipc_count_fc_extension(
                                                after_dequeue.proc_at(idx as int).tasks@,
                                                self.proc_at(idx as int).tasks@,
                                            );
                                        }
                                    },
                                    None => {
                                        // An IPC task can only have been
                                        // queued by the IPC module.
                                        proof {
                                            assert(false);
                                        }
                                    },
                                }
                            },
                        },
                    }
                },
                State::Faulted | State::Terminated => {
                    // A dead process has no queued tasks, so it can
                    // never be ready here.
                    proof {
                        assert(false);
                    }
                },
                State::StoppedRunning => {
                    return_reason = StoppedExecutingReason::Stopped;
                    break ;
                },
                State::StoppedYielded => {
                    return_reason = StoppedExecutingReason::Stopped;
                    break ;
                },
            }
        }
        // Charge the time used: a full slice on expiry (the remaining
        // query must not be repeated once it reported expiry, so the
        // stop reason is checked first), else slice minus remainder.
        let time_executed_us: Option<u32> = match timeslice_us {
            None => None,
            Some(ts) => {
                if return_reason == StoppedExecutingReason::TimesliceExpired {
                    Some(ts)
                } else {
                    match chip.timer_get_remaining(true) {
                        Some(remaining) => Some(ts - remaining),
                        None => Some(ts),
                    }
                }
            },
        };
        // Quiet the timer so it cannot fire while the chip sleeps.
        chip.timer_reset(real_timer);
        (return_reason, time_executed_us)
    }
}

impl Kernel {
    /// Perform one iteration of the core kernel loop.
    ///
    /// Exactly one of three things happens: kernel work is executed if
    /// the scheduler wants that now; else a process chosen by the
    /// scheduler runs (a stale identifier is skipped silently) and the
    /// scheduler is told why it stopped and for how long it ran; else
    /// the chip is put to sleep -- unless `no_sleep` is set, or the
    /// atomic re-check finds interrupts or deferred calls pending, which
    /// closes the race with a wakeup that arrives after the scheduler's
    /// decision.  The watchdog is tickled once per iteration.
    pub fn kernel_loop_operation<P: Platform, S: Scheduler>(
        &mut self,
        platform: &mut P,
        chip: &mut Chip,
        ipc: Option<&Ipc>,
        scheduler: &mut S,
        no_sleep: bool,
        _capability: &MainLoopCapability,
    )
        requires
            old(self).wf(),
            ipc is None ==> crate::kernel::kernel_no_ipc_tasks(*old(self)),
        ensures
            final(self).wf(),
            final(self).processes@.len() == old(self).processes@.len(),
            final(self).grant_counter == old(self).grant_counter,
            final(self).grants_finalized == old(self).grants_finalized,
            ipc is None ==> crate::kernel::kernel_no_ipc_tasks(*final(self)),
            (old(chip).mpu.enable_count == old(chip).mpu.disable_count && !old(chip).mpu.enabled) ==> (final(chip).mpu.enable_count == final(chip).mpu.disable_count
                && !final(chip).mpu.enabled),
            (old(chip).pending_interrupts > 0 || old(chip).deferred_calls > 0 || old(chip).arriving_interrupts > 0 || no_sleep) ==> final(chip).sleep_count == old(chip).sleep_count,
            final(chip).watchdog.tickle_count == old(chip).watchdog.tickle_count.wrapping_add(1),
            final(chip).watchdog.setup_count == old(chip).watchdog.setup_count,
            final(chip).sleep_count != old(chip).sleep_count ==> (final(self).processes@ == old(self).processes@ && final(chip).serviced_interrupts == old(chip).serviced_interrupts
                && final(chip).serviced_deferred_calls == old(chip).serviced_deferred_calls),
            final(chip).serviced_interrupts != old(chip).serviced_interrupts ==> (final(self).processes@ == old(self).processes@ && final(chip).sleep_count == old(chip).sleep_count),
    {
        chip.watchdog_tickle();
        // Ask the scheduler whether kernel tasks (interrupt bottom
        // halves, deferred calls) should run before any process.
        if scheduler.do_kernel_work_now(chip) {
            scheduler.execute_kernel_work(chip);
        } else {
            match scheduler.next(self) {
                SchedulingDecision::RunProcess(appid, timeslice_us) => {
                    // Look the process up by identifier; a stale one --
                    // the process died or was replaced since the
                    // scheduler's decision -- is skipped silently.
                    if self.processid_is_valid(&appid) {
                        let (reason, time_executed) = self.do_process(
                            platform,
                            chip,
                            scheduler,
                            appid.index,
                            ipc,
                            timeslice_us,
                        );
                        scheduler.result(reason, time_executed);
                    }
                },
                SchedulingDecision::TrySleep => {
                    // For tests and busy-wait bring-up the sleep path
                    // can be disabled entirely.
                    if !no_sleep {
                        let _ = chip.sleep_if_idle();
                    }
                },
            }
        }
    }

    /// Main loop of the OS, driven for `iterations` rounds of
    /// [`Self::kernel_loop_operation`].  On hardware the board calls
    /// this again as long as it is powered; the bound makes each run of
    /// the loop a terminating computation.
    pub fn kernel_loop<P: Platform, S: Scheduler>(
        &mut self,
        platform: &mut P,
        chip: &mut Chip,
        ipc: Option<&Ipc>,
        scheduler: &mut S,
        iterations: usize,
        capability: &MainLoopCapability,
    )
        requires
            old(self).wf(),
            ipc is None ==> crate::kernel::kernel_no_ipc_tasks(*old(self)),
        ensures
            final(self).wf(),
            final(self).processes@.len() == old(self).processes@.len(),
            final(self).grant_counter == old(self).grant_counter,
            final(self).grants_finalized == old(self).grants_finalized,
            ipc is None ==> crate::kernel::kernel_no_ipc_tasks(*final(self)),
            (old(chip).mpu.enable_count == old(chip).mpu.disable_count && !old(chip).mpu.enabled) ==> (final(chip).mpu.enable_count == final(chip).mpu.disable_count
                && !final(chip).mpu.enabled),
            final(chip).watchdog.setup_count == old(chip).watchdog.setup_count.wrapping_add(1),
            final(chip).watchdog.tickle_count == old(chip).watchdog.tickle_count.wrapping_add(
                iterations as u64,
            ),
    {
        chip.watchdog_setup();
        let mut i: usize = 0;
        while i < iterations
            invariant
                i <= iterations,
                self.wf(),
                self.processes@.len() == old(self).processes@.len(),
                self.grant_counter == old(self).grant_counter,
                self.grants_finalized == old(self).grants_finalized,
                ipc is None ==> crate::kernel::kernel_no_ipc_tasks(*self),
                (old(chip).mpu.enable_count == old(chip).mpu.disable_count && !old(chip).mpu.enabled) ==> (chip.mpu.enable_count == chip.mpu.disable_count
                    && !chip.mpu.enabled),
                chip.watchdog.setup_count == old(chip).watchdog.setup_count.wrapping_add(1),
                chip.watchdog.tickle_count == old(chip).watchdog.tickle_count.wrapping_add(
                    i as u64,
                ),
            decreases iterations - i,
        {
            self.kernel_loop_operation(platform, chip, ipc, scheduler, false, capability);
            i = i + 1;
        }
    }
}

/// No upcall queued for a subscribe slot before a Subscribe syscall
/// survives it: whatever the driver answered, every task carrying the
/// old function pointer was dropped before the driver ever ran, so none
/// can fire afterwards.
pub proof fn lemma_subscribe_drops_stale_upcalls(
    pre: Kernel,
    post: Kernel,
    i: int,
    driver_number: usize,
    subdriver_number: usize,
    upcall_ptr: usize,
    appdata: usize,
    has_driver: bool,
)
    requires
        subscribe_effect(
            pre,
            post,
            i,
            driver_number,
            subdriver_number,
            upcall_ptr,
            appdata,
            has_driver,
        ),
    ensures
        forall|t: int|
            0 <= t < post.proc_at(i).tasks@.len() ==> !crate::upcall::task_is_upcall_for(
                post.proc_at(i).tasks@[t],
                UpcallId { driver_num: driver_number, subscribe_num: subdriver_number },
            ),
{
    crate::upcall::lemma_without_upcalls_clean(
        pre.proc_at(i).tasks@,
        UpcallId { driver_num: driver_number, subscribe_num: subdriver_number },
    );
}

/// A terminated (or faulted) process is never selected by a scheduler:
/// as long as its slot still carries its generation, every decision that
/// meets the scheduler contract avoids it.  Only reuse of the slot under
/// a fresh generation makes the identifier schedulable again -- and that
/// identifier is a different `ProcessId`.
pub proof fn lemma_terminated_never_selected(k: Kernel, d: SchedulingDecision, pid: ProcessId)
    requires
        k.wf(),
        pid_valid(k, pid),
        !k.proc_at(pid.index as int).spec_active(),
        scheduler_decision_ok(k, d),
    ensures
        !(d matches SchedulingDecision::RunProcess(p, _ts) && p == pid),
{
}

/// The failure variant an Allow syscall reports.
pub open spec fn spec_allow_failure(
    read_write: bool,
    e: ErrorCode,
    ptr: usize,
    len: usize,
) -> SyscallReturn {
    if read_write {
        SyscallReturn::AllowReadWriteFailure(e, ptr, len)
    } else {
        SyscallReturn::AllowReadOnlyFailure(e, ptr, len)
    }
}

/// The success variant an Allow syscall reports: the driver's previous
/// slice.
pub open spec fn spec_allow_success(read_write: bool, ptr: usize, len: usize) -> SyscallReturn {
    if read_write {
        SyscallReturn::AllowReadWriteSuccess(ptr, len)
    } else {
        SyscallReturn::AllowReadOnlySuccess(ptr, len)
    }
}

} // verus!
