//! Tests of the bounded main loop, kernel work servicing and the IPC
//! task path of the process-execution routine.

use kernel_core::button::{ActivationMode, Button, ButtonPin, FloatingState, InterruptPin};
use kernel_core::capabilities::{MainLoopCapability, MemoryAllocationCapability};
use kernel_core::chip::Chip;
use kernel_core::cooperative::CooperativeSched;
use kernel_core::ipc::Ipc;
use kernel_core::kernel::Kernel;
use kernel_core::platform::SimplePlatform;
use kernel_core::process::{Process, State, UserAction, UserStep};
use kernel_core::slice_share::SliceShare;
use kernel_core::syscall::Syscall;
use kernel_core::upcall::{IpcType, Task, Upcall, UpcallId};
use kernel_core::usb_user::{UsbController, UsbSyscallDriver};

fn boot(scripts: Vec<Vec<UserStep>>) -> (Kernel, SimplePlatform, Chip) {
    let mut slots = Vec::new();
    for (i, script) in scripts.into_iter().enumerate() {
        slots.push(Some(Process::new(i, 100 + i, 0x1000, 64, script)));
    }
    let mut kernel = Kernel::new(slots);
    let capability = MemoryAllocationCapability {};
    let pins = vec![ButtonPin {
        pin: InterruptPin::new(false),
        activation_mode: ActivationMode::ActiveHigh,
        floating_state: FloatingState::PullNone,
    }];
    let platform = SimplePlatform {
        button: Button::new(pins, kernel.create_grant(&capability)),
        usb: UsbSyscallDriver::new(UsbController::new(), kernel.create_grant(&capability)),
        slices: SliceShare::new(kernel.create_grant(&capability)),
        filter_error: None,
    };
    let _ = kernel.get_grant_count_and_finalize();
    (kernel, platform, Chip::new())
}

#[test]
fn bounded_main_loop_tickles_the_watchdog_every_iteration() {
    let (mut kernel, mut platform, mut chip) = boot(vec![vec![]]);
    let mut sched = CooperativeSched::new();
    let capability = MainLoopCapability {};
    kernel.kernel_loop(&mut platform, &mut chip, None, &mut sched, 5, &capability);
    assert_eq!(chip.watchdog.setup_count, 1);
    assert_eq!(chip.watchdog.tickle_count, 5);
    assert!(!chip.watchdog.suspended);
    // With nothing to do, the idle iterations slept.
    assert_eq!(chip.sleep_count, 5);
}

#[test]
fn kernel_work_runs_before_processes() {
    let yield_wait = UserAction::MakeSyscall(Syscall::Yield { which: 1, address: 0x1010 });
    let (mut kernel, mut platform, mut chip) = boot(vec![vec![UserStep {
        cost_us: 10,
        action: yield_wait,
    }]]);
    assert!(kernel.enqueue_task(
        0,
        Task::FunctionCall(kernel_core::upcall::FunctionCall {
            source: kernel_core::upcall::FunctionCallSource::Kernel,
            pc: 0x80,
            argument0: 0,
            argument1: 0,
            argument2: 0,
            argument3: 0,
        })
    ));
    chip.raise_interrupt();
    chip.schedule_deferred_call();
    let mut sched = CooperativeSched::new();
    let capability = MainLoopCapability {};
    // First iteration: interrupt bottom halves and the deferred call are
    // serviced; the process does not run.
    kernel.kernel_loop_operation(&mut platform, &mut chip, None, &mut sched, true, &capability);
    assert_eq!(chip.pending_interrupts, 0);
    assert_eq!(chip.deferred_calls, 0);
    assert_eq!(chip.serviced_interrupts, 1);
    assert_eq!(chip.serviced_deferred_calls, 1);
    assert_eq!(sched.last_result, None);
    // Second iteration: now the process runs.
    kernel.kernel_loop_operation(&mut platform, &mut chip, None, &mut sched, true, &capability);
    assert!(sched.last_result.is_some());
    assert_eq!(kernel.processes[0].as_ref().unwrap().state, State::Yielded);
}

#[test]
fn ipc_task_delivers_the_registered_notification() {
    // Process A waits; an IPC task from peer B is queued on A.  The
    // process routine hands the task to the IPC module, which schedules
    // A's registered notification upcall with the peer's identifier.
    let yield_wait = UserAction::MakeSyscall(Syscall::Yield { which: 1, address: 0x1010 });
    let (mut kernel, mut platform, mut chip) = boot(vec![
        vec![UserStep { cost_us: 10, action: yield_wait }],
        vec![],
    ]);
    let a = kernel.processes[0].as_ref().unwrap().processid();
    let b = kernel.processes[1].as_ref().unwrap().processid();
    let notify_a = Upcall::new(
        a,
        UpcallId { driver_num: 0x10000, subscribe_num: 0 },
        0,
        0x90,
    );
    let null_b = Upcall::null(b, UpcallId { driver_num: 0x10000, subscribe_num: 0 });
    let ipc = Ipc::new(vec![notify_a, null_b]);
    assert!(kernel.enqueue_task(0, Task::IPC(b, IpcType::Service)));
    let mut sched = CooperativeSched::new();
    let (reason, _time) = kernel.do_process(
        &mut platform,
        &mut chip,
        &mut sched,
        0,
        Some(&ipc),
        None,
    );
    let p = kernel.processes[0].as_ref().unwrap();
    // The notification ran: it was installed with the peer's identifier
    // as its first argument, and the process then yielded.
    assert!(p.delivered.iter().any(|call| call.pc == 0x90 && call.argument0 == b.id));
    assert_eq!(p.state, State::Yielded);
    assert_eq!(reason, kernel_core::sched::StoppedExecutingReason::NoWorkLeft);
}
