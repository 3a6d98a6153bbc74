//! Tests of the driver capsules: the button driver, the USB driver and
//! the buffer-sharing capsule, driven both directly and through the
//! syscall dispatcher.

use kernel_core::button;
use kernel_core::button::{ActivationMode, Button, ButtonPin, FloatingState, InterruptPin};
use kernel_core::capabilities::{MainLoopCapability, MemoryAllocationCapability};
use kernel_core::chip::Chip;
use kernel_core::cooperative::CooperativeSched;
use kernel_core::errorcode::ErrorCode;
use kernel_core::kernel::Kernel;
use kernel_core::platform::SimplePlatform;
use kernel_core::process::{Process, ProcessId, State, UserAction, UserStep};
use kernel_core::slice_share;
use kernel_core::slice_share::SliceShare;
use kernel_core::syscall::{CommandReturn, Syscall, SyscallReturn};
use kernel_core::upcall::{FunctionCall, FunctionCallSource, Task, Upcall, UpcallId};
use kernel_core::usb_user;
use kernel_core::usb_user::{Request, UsbController, UsbSyscallDriver};

fn boot(n_processes: usize) -> (Kernel, SimplePlatform, Chip) {
    let mut slots = Vec::new();
    for i in 0..n_processes {
        let script = vec![UserStep {
            cost_us: 100,
            action: UserAction::MakeSyscall(Syscall::Yield { which: 1, address: 0x1010 }),
        }];
        slots.push(Some(Process::new(i, 100 + i, 0x1000, 64, script)));
    }
    let mut kernel = Kernel::new(slots);
    let capability = MemoryAllocationCapability {};
    let mut pins = Vec::new();
    for _ in 0..3 {
        pins.push(ButtonPin {
            pin: InterruptPin::new(false),
            activation_mode: ActivationMode::ActiveHigh,
            floating_state: FloatingState::PullDown,
        });
    }
    let platform = SimplePlatform {
        button: Button::new(pins, kernel.create_grant(&capability)),
        usb: UsbSyscallDriver::new(UsbController::new(), kernel.create_grant(&capability)),
        slices: SliceShare::new(kernel.create_grant(&capability)),
        filter_error: None,
    };
    let _ = kernel.get_grant_count_and_finalize();
    (kernel, platform, Chip::new())
}

fn pid(kernel: &Kernel, index: usize) -> ProcessId {
    kernel.processes[index].as_ref().unwrap().processid()
}

fn make_running(kernel: &mut Kernel, index: usize) {
    kernel.set_process_function(
        index,
        FunctionCall {
            source: FunctionCallSource::Kernel,
            pc: 0x80,
            argument0: 0,
            argument1: 0,
            argument2: 0,
            argument3: 0,
        },
    );
}

fn upcall_for(kernel: &Kernel, index: usize, driver: usize, ptr: usize, data: usize) -> Upcall {
    Upcall::new(
        pid(kernel, index),
        UpcallId { driver_num: driver, subscribe_num: 0 },
        data,
        ptr,
    )
}

#[test]
fn button_new_configures_the_pins() {
    let (kernel, platform, _chip) = boot(1);
    let _ = kernel;
    for (i, entry) in platform.button.pins.iter().enumerate() {
        assert!(entry.pin.is_input);
        assert_eq!(entry.pin.value, i as u32);
        assert_eq!(entry.pin.floating_state, FloatingState::PullDown);
        assert!(!entry.pin.interrupts_enabled);
    }
}

#[test]
fn button_count_and_state() {
    let (mut kernel, mut platform, _chip) = boot(1);
    let app = pid(&kernel, 0);
    let r = platform.button.command(0, 0, 0, app, &kernel);
    assert_eq!(r, CommandReturn::SuccessU32(3));
    // Button 1 pressed (active-high wiring).
    platform.button.pins[1].pin.level_high = true;
    let r = platform.button.command(3, 1, 0, app, &mut kernel);
    assert_eq!(r, CommandReturn::SuccessU32(1));
    let r = platform.button.command(3, 0, 0, app, &kernel);
    assert_eq!(r, CommandReturn::SuccessU32(0));
}

#[test]
fn button_out_of_range_index_is_invalid() {
    // Index == pins.len(): INVAL for commands 1, 2 and 3.
    let (kernel, mut platform, _chip) = boot(1);
    let app = pid(&kernel, 0);
    let n = platform.button.pins.len();
    for command in 1..4 {
        let r = platform.button.command(command, n, 0, app, &kernel);
        assert_eq!(r, CommandReturn::Failure(ErrorCode::INVAL));
    }
    let r = platform.button.command(4, 0, 0, app, &kernel);
    assert_eq!(r, CommandReturn::Failure(ErrorCode::NOSUPPORT));
}

#[test]
fn button_subscribe_round_trips_the_previous_upcall() {
    // Subscribe(X) then Subscribe(Y): the second call returns X's
    // payload; the very first call returns the null upcall.
    let (kernel, mut platform, _chip) = boot(1);
    let app = pid(&kernel, 0);
    let x = upcall_for(&kernel, 0, button::DRIVER_NUM, 0x111, 7);
    let y = upcall_for(&kernel, 0, button::DRIVER_NUM, 0x222, 8);
    let first = platform.button.subscribe(0, x, app, &kernel).expect("live process");
    assert_eq!(first.fn_ptr, 0);
    let second = platform.button.subscribe(0, y, app, &kernel).expect("live process");
    assert_eq!(second, x);
    // An unknown subscribe number echoes the new upcall back.
    let rejected = platform.button.subscribe(1, y, app, &kernel);
    assert_eq!(rejected, Err((y, ErrorCode::NOSUPPORT)));
}

#[test]
fn button_mask_round_trips_through_enable_disable() {
    // command(1, i) then command(2, i) leaves mask bit i as it was
    // (starting clear).
    let (kernel, mut platform, _chip) = boot(1);
    let app = pid(&kernel, 0);
    let before = platform
        .button
        .apps
        .enter_get(app, &kernel, Button::default_app())
        .unwrap()
        .mask;
    assert_eq!(before & (1 << 1), 0);
    assert_eq!(platform.button.command(1, 1, 0, app, &kernel), CommandReturn::Success);
    assert!(platform.button.pins[1].pin.interrupts_enabled);
    assert_eq!(platform.button.command(2, 1, 0, app, &kernel), CommandReturn::Success);
    let after = platform
        .button
        .apps
        .enter_get(app, &kernel, Button::default_app())
        .unwrap()
        .mask;
    assert_eq!(after, before);
    // Nobody is interested any more: the interrupt was disabled again.
    assert!(!platform.button.pins[1].pin.interrupts_enabled);
}

#[test]
fn button_interrupt_reaches_all_subscribers_and_survivors_keep_it_enabled() {
    // Three buttons, two processes subscribed to button 1.  The pin
    // fires: both receive the upcall.  B terminates; the pin fires
    // again: only A receives.  B's disable after termination fails, and
    // the sweep finds A still interested, so the pin stays enabled.
    let (mut kernel, mut platform, mut chip) = boot(2);
    let a = pid(&kernel, 0);
    let b = pid(&kernel, 1);
    let cb_a = upcall_for(&kernel, 0, button::DRIVER_NUM, 0xa0, 0);
    let cb_b = upcall_for(&kernel, 1, button::DRIVER_NUM, 0xb0, 0);
    platform.button.subscribe(0, cb_a, a, &kernel).unwrap();
    platform.button.subscribe(0, cb_b, b, &kernel).unwrap();
    assert_eq!(platform.button.command(1, 1, 0, a, &kernel), CommandReturn::Success);
    assert_eq!(platform.button.command(1, 1, 0, b, &kernel), CommandReturn::Success);

    // Pin 1 fires with the button pressed: both processes get (1, 1).
    platform.button.pins[1].pin.level_high = true;
    platform.button.fired(1, &mut kernel);
    for index in 0..2 {
        let p = kernel.processes[index].as_ref().unwrap();
        assert_eq!(p.tasks.len(), 1);
        match p.tasks[0] {
            Task::FunctionCall(call) => {
                assert_eq!(call.argument0, 1);
                assert_eq!(call.argument1, 1);
            }
            _ => panic!("expected the button upcall"),
        }
    }

    // Drain the queues by letting both processes yield through them.
    let mut sched = CooperativeSched::new();
    let capability = MainLoopCapability {};
    for _ in 0..4 {
        kernel.kernel_loop_operation(&mut platform, &mut chip, None, &mut sched, true, &capability);
    }

    // B terminates; its queued work is gone and the next event reaches
    // only A.
    kernel.terminate(1, 0);
    platform.button.fired(1, &mut kernel);
    assert_eq!(kernel.processes[0].as_ref().unwrap().tasks.len(), 1);
    assert_eq!(kernel.processes[1].as_ref().unwrap().tasks.len(), 0);

    // B's disable-after-death fails, but the sweep still finds A
    // interested: the pin stays enabled.
    let r = platform.button.command(2, 1, 0, b, &kernel);
    assert_eq!(r, CommandReturn::Failure(ErrorCode::NOMEM));
    assert!(platform.button.pins[1].pin.interrupts_enabled);
}

#[test]
fn usb_command_present_and_unknown() {
    let (mut kernel, mut platform, _chip) = boot(1);
    let app = pid(&kernel, 0);
    assert_eq!(platform.usb.command(0, 0, 0, app, &mut kernel), CommandReturn::Success);
    assert_eq!(
        platform.usb.command(9, 0, 0, app, &mut kernel),
        CommandReturn::Failure(ErrorCode::NOSUPPORT)
    );
}

#[test]
fn usb_enable_attach_is_served_synchronously() {
    let (mut kernel, mut platform, _chip) = boot(1);
    let app = pid(&kernel, 0);
    let cb = upcall_for(&kernel, 0, usb_user::DRIVER_NUM, 0xc0, 5);
    platform.usb.subscribe(0, cb, app, &kernel).unwrap();
    assert_eq!(platform.usb.command(1, 0, 0, app, &mut kernel), CommandReturn::Success);
    assert!(platform.usb.usbc_client.enabled);
    assert!(platform.usb.usbc_client.attached);
    // The completion callback was scheduled with a success status.
    let p = kernel.processes[0].as_ref().unwrap();
    assert_eq!(p.tasks.len(), 1);
    match p.tasks[0] {
        Task::FunctionCall(call) => {
            assert_eq!(call.pc, 0xc0);
            assert_eq!(call.argument0, 0);
        }
        _ => panic!("expected the completion upcall"),
    }
    // The request was consumed.
    let entry = platform
        .usb
        .apps
        .enter_get(app, &kernel, UsbSyscallDriver::default_app())
        .unwrap();
    assert_eq!(entry.awaiting, None);
}

#[test]
fn usb_second_request_while_awaiting_is_busy() {
    // Command 1 while `awaiting` is already Some answers BUSY.
    let (mut kernel, mut platform, _chip) = boot(1);
    let app = pid(&kernel, 0);
    // Model an operation still outstanding for this app.
    let stored = usb_user::App {
        callback: upcall_for(&kernel, 0, usb_user::DRIVER_NUM, 0xc0, 5),
        awaiting: Some(Request::EnableAndAttach),
    };
    platform.usb.apps.enter_put(app, &kernel, stored).unwrap();
    assert_eq!(
        platform.usb.command(1, 0, 0, app, &mut kernel),
        CommandReturn::Failure(ErrorCode::BUSY)
    );
}

#[test]
fn usb_requests_from_two_processes_both_complete() {
    // Enable-attach from A, then from B before A's callback has run:
    // both commands succeed, both requests are recorded and served, and
    // each app's own callback is scheduled.  (The serving helper
    // completes requests synchronously, so no app is ever marked as
    // being served across calls.)
    let (mut kernel, mut platform, _chip) = boot(2);
    let a = pid(&kernel, 0);
    let b = pid(&kernel, 1);
    let cb_a = upcall_for(&kernel, 0, usb_user::DRIVER_NUM, 0xa0, 0);
    let cb_b = upcall_for(&kernel, 1, usb_user::DRIVER_NUM, 0xb0, 0);
    platform.usb.subscribe(0, cb_a, a, &kernel).unwrap();
    platform.usb.subscribe(0, cb_b, b, &kernel).unwrap();
    assert_eq!(platform.usb.command(1, 0, 0, a, &mut kernel), CommandReturn::Success);
    assert_eq!(platform.usb.command(1, 0, 0, b, &mut kernel), CommandReturn::Success);
    assert!(platform.usb.serving_app.is_none());
    for (index, pc) in [(0usize, 0xa0usize), (1, 0xb0)] {
        let p = kernel.processes[index].as_ref().unwrap();
        assert_eq!(p.tasks.len(), 1);
        match p.tasks[0] {
            Task::FunctionCall(call) => assert_eq!(call.pc, pc),
            _ => panic!("expected the completion upcall"),
        }
    }
}

#[test]
fn allow_returns_the_previously_held_buffer() {
    // Every successful Allow returns what the driver held for that
    // process before the call: the empty slice the first time, then the
    // earlier buffer.
    let (mut kernel, mut platform, _chip) = boot(1);
    make_running(&mut kernel, 0);
    kernel.handle_syscall(
        &mut platform,
        0,
        Syscall::ReadWriteAllow {
            driver_number: slice_share::DRIVER_NUM,
            subdriver_number: 0,
            allow_address: 0x1008,
            allow_size: 16,
        },
    );
    assert_eq!(
        kernel.processes[0].as_ref().unwrap().syscall_return,
        Some(SyscallReturn::AllowReadWriteSuccess(0, 0))
    );
    kernel.handle_syscall(
        &mut platform,
        0,
        Syscall::ReadWriteAllow {
            driver_number: slice_share::DRIVER_NUM,
            subdriver_number: 0,
            allow_address: 0x1020,
            allow_size: 8,
        },
    );
    assert_eq!(
        kernel.processes[0].as_ref().unwrap().syscall_return,
        Some(SyscallReturn::AllowReadWriteSuccess(0x1008, 16))
    );
    // Read-only allows have their own slot.
    kernel.handle_syscall(
        &mut platform,
        0,
        Syscall::ReadOnlyAllow {
            driver_number: slice_share::DRIVER_NUM,
            subdriver_number: 0,
            allow_address: 0x1010,
            allow_size: 4,
        },
    );
    assert_eq!(
        kernel.processes[0].as_ref().unwrap().syscall_return,
        Some(SyscallReturn::AllowReadOnlySuccess(0, 0))
    );
}

#[test]
fn allow_rejects_a_region_outside_process_memory() {
    let (mut kernel, mut platform, _chip) = boot(1);
    make_running(&mut kernel, 0);
    kernel.handle_syscall(
        &mut platform,
        0,
        Syscall::ReadWriteAllow {
            driver_number: slice_share::DRIVER_NUM,
            subdriver_number: 0,
            allow_address: 0x2000,
            allow_size: 16,
        },
    );
    assert_eq!(
        kernel.processes[0].as_ref().unwrap().syscall_return,
        Some(SyscallReturn::AllowReadWriteFailure(ErrorCode::INVAL, 0x2000, 16))
    );
}

#[test]
fn subscribe_through_the_dispatcher_round_trips() {
    let (mut kernel, mut platform, _chip) = boot(1);
    make_running(&mut kernel, 0);
    kernel.handle_syscall(
        &mut platform,
        0,
        Syscall::Subscribe {
            driver_number: button::DRIVER_NUM,
            subdriver_number: 0,
            upcall_ptr: 0x111,
            appdata: 7,
        },
    );
    assert_eq!(
        kernel.processes[0].as_ref().unwrap().syscall_return,
        Some(SyscallReturn::SubscribeSuccess(0, 0))
    );
    kernel.handle_syscall(
        &mut platform,
        0,
        Syscall::Subscribe {
            driver_number: button::DRIVER_NUM,
            subdriver_number: 0,
            upcall_ptr: 0x222,
            appdata: 8,
        },
    );
    assert_eq!(
        kernel.processes[0].as_ref().unwrap().syscall_return,
        Some(SyscallReturn::SubscribeSuccess(0x111, 7))
    );
    // Unknown driver: the new upcall is echoed back with NODEVICE.
    kernel.handle_syscall(
        &mut platform,
        0,
        Syscall::Subscribe {
            driver_number: 999,
            subdriver_number: 0,
            upcall_ptr: 0x333,
            appdata: 9,
        },
    );
    assert_eq!(
        kernel.processes[0].as_ref().unwrap().syscall_return,
        Some(SyscallReturn::SubscribeFailure(ErrorCode::NODEVICE, 0x333, 9))
    );
}

#[test]
fn state_enum_covers_the_lifecycle() {
    let p = Process::new(0, 1, 0x1000, 16, Vec::new());
    assert_eq!(p.state, State::Unstarted);
    assert!(!p.ready());
    assert!(p.is_active());
}
