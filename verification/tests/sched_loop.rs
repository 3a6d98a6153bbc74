//! Tests of the kernel loop, the process-execution routine and the
//! syscall dispatcher: timeslice accounting, MPU pairing, yield
//! semantics, the sleep race and the subscribe/upcall protocol.

use kernel_core::button;
use kernel_core::button::{ActivationMode, Button, ButtonPin, FloatingState, InterruptPin};
use kernel_core::capabilities::{MainLoopCapability, MemoryAllocationCapability};
use kernel_core::chip::Chip;
use kernel_core::cooperative::CooperativeSched;
use kernel_core::kernel::Kernel;
use kernel_core::platform::SimplePlatform;
use kernel_core::process::{Process, State, UserAction, UserStep};
use kernel_core::round_robin::RoundRobinSched;
use kernel_core::sched::{SchedulingDecision, Scheduler, StoppedExecutingReason, MIN_QUANTA_THRESHOLD_US};
use kernel_core::slice_share::SliceShare;
use kernel_core::syscall::{Syscall, SyscallReturn};
use kernel_core::upcall::{FunctionCall, FunctionCallSource, Task};
use kernel_core::usb_user::{UsbController, UsbSyscallDriver};

fn step(cost_us: u32, action: UserAction) -> UserStep {
    UserStep { cost_us, action }
}

fn startup_task() -> Task {
    Task::FunctionCall(FunctionCall {
        source: FunctionCallSource::Kernel,
        pc: 0x80,
        argument0: 0,
        argument1: 0,
        argument2: 0,
        argument3: 0,
    })
}

/// A kernel with the given process scripts plus a platform with the
/// three capsules (three buttons wired active-high).
fn boot(scripts: Vec<Vec<UserStep>>) -> (Kernel, SimplePlatform, Chip) {
    let mut slots = Vec::new();
    for (i, script) in scripts.into_iter().enumerate() {
        slots.push(Some(Process::new(i, 100 + i, 0x1000, 64, script)));
    }
    let mut kernel = Kernel::new(slots);
    let capability = MemoryAllocationCapability {};
    let mut pins = Vec::new();
    for _ in 0..3 {
        pins.push(ButtonPin {
            pin: InterruptPin::new(false),
            activation_mode: ActivationMode::ActiveHigh,
            floating_state: FloatingState::PullDown,
        });
    }
    let platform = SimplePlatform {
        button: Button::new(pins, kernel.create_grant(&capability)),
        usb: UsbSyscallDriver::new(UsbController::new(), kernel.create_grant(&capability)),
        slices: SliceShare::new(kernel.create_grant(&capability)),
        filter_error: None,
    };
    let _ = kernel.get_grant_count_and_finalize();
    (kernel, platform, Chip::new())
}

#[test]
fn cooperative_runs_both_processes_to_no_work_left() {
    // Two processes, cooperative scheduler: A runs until it has no work
    // left, then B; the scheduler hears NoWorkLeft twice with no time
    // accounting.
    let yield_wait = UserAction::MakeSyscall(Syscall::Yield { which: 1, address: 0x1010 });
    let (mut kernel, mut platform, mut chip) = boot(vec![
        vec![step(100, yield_wait)],
        vec![step(100, yield_wait)],
    ]);
    assert!(kernel.enqueue_task(0, startup_task()));
    assert!(kernel.enqueue_task(1, startup_task()));
    let mut sched = CooperativeSched::new();
    let capability = MainLoopCapability {};

    kernel.kernel_loop_operation(&mut platform, &mut chip, None, &mut sched, true, &capability);
    assert_eq!(sched.last_result, Some((StoppedExecutingReason::NoWorkLeft, None)));
    assert_eq!(kernel.processes[0].as_ref().unwrap().state, State::Yielded);

    kernel.kernel_loop_operation(&mut platform, &mut chip, None, &mut sched, true, &capability);
    assert_eq!(sched.last_result, Some((StoppedExecutingReason::NoWorkLeft, None)));
    assert_eq!(kernel.processes[1].as_ref().unwrap().state, State::Yielded);

    // Nothing left to do at all.
    assert_eq!(kernel.work, 0);
    for slot in kernel.processes.iter() {
        let p = slot.as_ref().unwrap();
        assert_ne!(p.state, State::Running);
        assert_eq!(p.tasks.len(), 0);
    }
}

#[test]
fn round_robin_charges_the_full_timeslice_on_expiry() {
    // A tight CPU-bound process under a 10 000 us timeslice: the
    // scheduler hears TimesliceExpired with exactly 10 000 us consumed.
    let (mut kernel, mut platform, mut chip) = boot(vec![vec![step(
        1_000_000,
        UserAction::Interrupted,
    )]]);
    assert!(kernel.enqueue_task(0, startup_task()));
    let mut sched = RoundRobinSched::new_with_timeslice(10_000);
    let capability = MainLoopCapability {};
    kernel.kernel_loop_operation(&mut platform, &mut chip, None, &mut sched, true, &capability);
    assert_eq!(
        sched.last_result,
        Some((StoppedExecutingReason::TimesliceExpired, Some(10_000)))
    );
    let p = kernel.processes[0].as_ref().unwrap();
    assert_eq!(p.timeslice_expirations, 1);
}

#[test]
fn partial_timeslice_is_charged_exactly() {
    // A process that computes for 2 000 us and then yields: the
    // scheduler is charged exactly the time consumed, not the slice.
    let yield_wait = UserAction::MakeSyscall(Syscall::Yield { which: 1, address: 0x1010 });
    let (mut kernel, mut platform, mut chip) = boot(vec![vec![step(2_000, yield_wait)]]);
    assert!(kernel.enqueue_task(0, startup_task()));
    let mut sched = RoundRobinSched::new_with_timeslice(10_000);
    let capability = MainLoopCapability {};
    kernel.kernel_loop_operation(&mut platform, &mut chip, None, &mut sched, true, &capability);
    assert_eq!(
        sched.last_result,
        Some((StoppedExecutingReason::NoWorkLeft, Some(2_000)))
    );
}

#[test]
fn mpu_enables_equal_disables_each_iteration() {
    let yield_wait = UserAction::MakeSyscall(Syscall::Yield { which: 1, address: 0x1010 });
    let (mut kernel, mut platform, mut chip) = boot(vec![vec![
        step(100, UserAction::Interrupted),
        step(100, yield_wait),
    ]]);
    assert!(kernel.enqueue_task(0, startup_task()));
    let mut sched = RoundRobinSched::new();
    let capability = MainLoopCapability {};
    for _ in 0..4 {
        kernel.kernel_loop_operation(&mut platform, &mut chip, None, &mut sched, true, &capability);
        assert_eq!(chip.mpu.enable_count, chip.mpu.disable_count);
        assert!(!chip.mpu.enabled);
    }
    // The process did run in user mode at least once.
    assert!(chip.mpu.enable_count > 0);
}

#[test]
fn timeslice_at_threshold_skips_the_process() {
    // A timeslice of exactly the minimum quantum: the process is not
    // even context-switched, and the whole slice is charged.
    let (mut kernel, mut platform, mut chip) = boot(vec![vec![step(
        10,
        UserAction::Interrupted,
    )]]);
    assert!(kernel.enqueue_task(0, startup_task()));
    let mut sched = CooperativeSched::new();
    let (reason, time) = kernel.do_process(
        &mut platform,
        &mut chip,
        &mut sched,
        0,
        None,
        Some(MIN_QUANTA_THRESHOLD_US),
    );
    assert_eq!(reason, StoppedExecutingReason::TimesliceExpired);
    assert_eq!(time, Some(MIN_QUANTA_THRESHOLD_US));
    let p = kernel.processes[0].as_ref().unwrap();
    assert_eq!(p.switch_count, 0);
    assert_eq!(p.timeslice_expirations, 1);
    // The queued startup task was not consumed: zero useful work.
    assert_eq!(p.tasks.len(), 1);
}

#[test]
fn timeslice_above_threshold_runs_one_switch() {
    // One microsecond above the minimum quantum: the process reaches
    // user mode at least once.
    let yield_nowait = UserAction::MakeSyscall(Syscall::Yield { which: 0, address: 0x1010 });
    let (mut kernel, mut platform, mut chip) = boot(vec![vec![step(1, yield_nowait)]]);
    assert!(kernel.enqueue_task(0, startup_task()));
    let mut sched = CooperativeSched::new();
    let (reason, time) = kernel.do_process(
        &mut platform,
        &mut chip,
        &mut sched,
        0,
        None,
        Some(MIN_QUANTA_THRESHOLD_US + 1),
    );
    let p = kernel.processes[0].as_ref().unwrap();
    assert!(p.switch_count >= 1);
    assert_eq!(reason, StoppedExecutingReason::TimesliceExpired);
    assert_eq!(time, Some(MIN_QUANTA_THRESHOLD_US + 1));
}

#[test]
fn yield_no_wait_with_empty_queue_returns_immediately() {
    let (mut kernel, mut platform, _chip) = boot(vec![vec![]]);
    kernel.set_process_function(
        0,
        FunctionCall {
            source: FunctionCallSource::Kernel,
            pc: 0x80,
            argument0: 0,
            argument1: 0,
            argument2: 0,
            argument3: 0,
        },
    );
    kernel.handle_syscall(&mut platform, 0, Syscall::Yield { which: 0, address: 0x1010 });
    let p = kernel.processes[0].as_ref().unwrap();
    // Still running, and the "did I trigger upcalls" flag reads 0.
    assert_eq!(p.state, State::Running);
    assert_eq!(p.get_byte(0x1010), Some(0));
}

#[test]
fn yield_wait_with_empty_queue_suspends() {
    let (mut kernel, mut platform, _chip) = boot(vec![vec![]]);
    kernel.set_process_function(
        0,
        FunctionCall {
            source: FunctionCallSource::Kernel,
            pc: 0x80,
            argument0: 0,
            argument1: 0,
            argument2: 0,
            argument3: 0,
        },
    );
    kernel.handle_syscall(&mut platform, 0, Syscall::Yield { which: 1, address: 0x1010 });
    let p = kernel.processes[0].as_ref().unwrap();
    assert_eq!(p.state, State::Yielded);
    assert_eq!(p.get_byte(0x1010), Some(1));
}

#[test]
fn yield_with_invalid_selector_does_nothing() {
    let (mut kernel, mut platform, _chip) = boot(vec![vec![]]);
    kernel.set_process_function(
        0,
        FunctionCall {
            source: FunctionCallSource::Kernel,
            pc: 0x80,
            argument0: 0,
            argument1: 0,
            argument2: 0,
            argument3: 0,
        },
    );
    kernel.handle_syscall(&mut platform, 0, Syscall::Yield { which: 2, address: 0x1010 });
    let p = kernel.processes[0].as_ref().unwrap();
    assert_eq!(p.state, State::Running);
    assert_eq!(p.get_byte(0x1010), Some(0));
    assert_eq!(p.syscall_return, None);
}

#[test]
fn command_for_unknown_driver_reports_nodevice() {
    let (mut kernel, mut platform, _chip) = boot(vec![vec![]]);
    kernel.set_process_function(
        0,
        FunctionCall {
            source: FunctionCallSource::Kernel,
            pc: 0x80,
            argument0: 0,
            argument1: 0,
            argument2: 0,
            argument3: 0,
        },
    );
    kernel.handle_syscall(
        &mut platform,
        0,
        Syscall::Command { driver_number: 999, subdriver_number: 0, arg0: 0, arg1: 0 },
    );
    let p = kernel.processes[0].as_ref().unwrap();
    assert_eq!(
        p.syscall_return,
        Some(SyscallReturn::Failure(kernel_core::errorcode::ErrorCode::NODEVICE))
    );
}

#[test]
fn filtered_syscall_fails_without_losing_the_timeslice() {
    let (mut kernel, mut platform, _chip) = boot(vec![vec![]]);
    platform.filter_error = Some(kernel_core::errorcode::ErrorCode::NOSUPPORT);
    kernel.set_process_function(
        0,
        FunctionCall {
            source: FunctionCallSource::Kernel,
            pc: 0x80,
            argument0: 0,
            argument1: 0,
            argument2: 0,
            argument3: 0,
        },
    );
    kernel.handle_syscall(
        &mut platform,
        0,
        Syscall::Command { driver_number: button::DRIVER_NUM, subdriver_number: 0, arg0: 0, arg1: 0 },
    );
    let p = kernel.processes[0].as_ref().unwrap();
    assert_eq!(p.state, State::Running);
    assert_eq!(
        p.syscall_return,
        Some(SyscallReturn::Failure(kernel_core::errorcode::ErrorCode::NOSUPPORT))
    );
}

#[test]
fn exit_terminate_and_scheduler_avoidance() {
    // After exit-terminate the process is Terminated and the scheduler
    // never offers it the CPU again while its slot holds the old
    // generation.
    let (mut kernel, mut platform, _chip) = boot(vec![vec![]]);
    kernel.set_process_function(
        0,
        FunctionCall {
            source: FunctionCallSource::Kernel,
            pc: 0x80,
            argument0: 0,
            argument1: 0,
            argument2: 0,
            argument3: 0,
        },
    );
    kernel.handle_syscall(&mut platform, 0, Syscall::Exit { which: 0, completion_code: 9 });
    let p = kernel.processes[0].as_ref().unwrap();
    assert_eq!(p.state, State::Terminated);
    assert_eq!(p.completion_code, Some(9));
    let mut sched = RoundRobinSched::new();
    match sched.next(&kernel) {
        SchedulingDecision::TrySleep => {}
        SchedulingDecision::RunProcess(_, _) => panic!("a terminated process was selected"),
    }
}

#[test]
fn subscribe_drops_stale_upcalls_before_the_driver_runs() {
    // Subscribe with a pointer, let the pin interrupt queue an upcall,
    // subscribe again with a new pointer before yielding: the queued
    // upcall is dropped, and only upcalls queued after the second
    // subscribe are delivered.
    let (mut kernel, mut platform, mut chip) = boot(vec![vec![step(
        100,
        UserAction::MakeSyscall(Syscall::Yield { which: 1, address: 0x1010 }),
    )]]);
    kernel.set_process_function(
        0,
        FunctionCall {
            source: FunctionCallSource::Kernel,
            pc: 0x80,
            argument0: 0,
            argument1: 0,
            argument2: 0,
            argument3: 0,
        },
    );
    // Subscribe to the button upcall and enable button 1.
    kernel.handle_syscall(
        &mut platform,
        0,
        Syscall::Subscribe {
            driver_number: button::DRIVER_NUM,
            subdriver_number: 0,
            upcall_ptr: 0x111,
            appdata: 7,
        },
    );
    kernel.handle_syscall(
        &mut platform,
        0,
        Syscall::Command { driver_number: button::DRIVER_NUM, subdriver_number: 1, arg0: 1, arg1: 0 },
    );
    // The pin fires: an upcall with the old pointer is queued.
    platform.button.pins[1].pin.level_high = true;
    platform.button.fired(1, &mut kernel);
    assert_eq!(kernel.processes[0].as_ref().unwrap().tasks.len(), 1);
    // Re-subscribe with a new pointer before yielding: the stale upcall
    // is dropped and the old pointer comes back as the previous payload.
    kernel.handle_syscall(
        &mut platform,
        0,
        Syscall::Subscribe {
            driver_number: button::DRIVER_NUM,
            subdriver_number: 0,
            upcall_ptr: 0x222,
            appdata: 8,
        },
    );
    {
        let p = kernel.processes[0].as_ref().unwrap();
        assert_eq!(p.tasks.len(), 0);
        assert_eq!(p.syscall_return, Some(SyscallReturn::SubscribeSuccess(0x111, 7)));
    }
    // The pin fires again: only the new pointer is queued, and on yield
    // it is the only upcall delivered.
    platform.button.fired(1, &mut kernel);
    let mut sched = CooperativeSched::new();
    let capability = MainLoopCapability {};
    kernel.kernel_loop_operation(&mut platform, &mut chip, None, &mut sched, true, &capability);
    let p = kernel.processes[0].as_ref().unwrap();
    assert!(p.delivered.iter().all(|call| call.pc != 0x111));
    assert!(p.delivered.iter().any(|call| call.pc == 0x222));
}

#[test]
fn declined_fault_hook_faults_the_process() {
    // The process faults in user mode; the platform's hook declines to
    // handle it, so the kernel faults the process: it leaves Running,
    // its queued work is dropped, and the run ends with no work left.
    let (mut kernel, mut platform, mut chip) = boot(vec![vec![step(10, UserAction::Fault)]]);
    assert!(kernel.enqueue_task(0, startup_task()));
    let mut sched = CooperativeSched::new();
    let (reason, _time) = kernel.do_process(&mut platform, &mut chip, &mut sched, 0, None, None);
    let p = kernel.processes[0].as_ref().unwrap();
    assert_eq!(p.state, State::Faulted);
    assert_eq!(p.tasks.len(), 0);
    assert_eq!(reason, StoppedExecutingReason::NoWorkLeft);
    // The scheduler never offers the faulted process the CPU again.
    match sched.next(&kernel) {
        SchedulingDecision::TrySleep => {}
        SchedulingDecision::RunProcess(_, _) => panic!("a faulted process was selected"),
    }
}

#[test]
fn sleep_race_is_closed_by_the_atomic_recheck() {
    // The scheduler decides to sleep; an interrupt lands between that
    // decision and the atomic section: the re-check catches it and the
    // chip does not sleep.
    let (mut kernel, mut platform, mut chip) = boot(vec![vec![]]);
    let mut sched = CooperativeSched::new();
    let capability = MainLoopCapability {};
    chip.raise_late_interrupt();
    kernel.kernel_loop_operation(&mut platform, &mut chip, None, &mut sched, false, &capability);
    assert_eq!(chip.sleep_count, 0);
    // The late interrupt is pending now and will be serviced by the
    // next iteration's kernel-work path.
    assert_eq!(chip.pending_interrupts, 1);
    kernel.kernel_loop_operation(&mut platform, &mut chip, None, &mut sched, false, &capability);
    assert_eq!(chip.pending_interrupts, 0);
    assert_eq!(chip.serviced_interrupts, 1);
    // Now the chip is truly idle and may sleep.
    kernel.kernel_loop_operation(&mut platform, &mut chip, None, &mut sched, false, &capability);
    assert_eq!(chip.sleep_count, 1);
}

#[test]
fn memop_gets_a_return_value() {
    let (mut kernel, mut platform, _chip) = boot(vec![vec![]]);
    kernel.set_process_function(
        0,
        FunctionCall {
            source: FunctionCallSource::Kernel,
            pc: 0x80,
            argument0: 0,
            argument1: 0,
            argument2: 0,
            argument3: 0,
        },
    );
    kernel.handle_syscall(&mut platform, 0, Syscall::Memop { operand: 0, arg0: 0 });
    let p = kernel.processes[0].as_ref().unwrap();
    assert_eq!(
        p.syscall_return,
        Some(SyscallReturn::Failure(kernel_core::errorcode::ErrorCode::NOSUPPORT))
    );
}
