//! Tests of the kernel object itself: work accounting, identifier and
//! grant bookkeeping, process lookup and the task-queue primitives.

use kernel_core::capabilities::{
    ExternalProcessCapability, MemoryAllocationCapability, ProcessManagementCapability,
};
use kernel_core::grant::Grant;
use kernel_core::kernel::{Kernel, TASK_QUEUE_SIZE};
use kernel_core::process::{Process, ProcessId, State};
use kernel_core::upcall::{FunctionCall, FunctionCallSource, Task, Upcall, UpcallId};

fn fresh_process(slot: usize, identifier: usize) -> Process {
    Process::new(slot, identifier, 0x1000, 64, Vec::new())
}

fn fc(pc: usize) -> Task {
    Task::FunctionCall(FunctionCall {
        source: FunctionCallSource::Kernel,
        pc,
        argument0: 0,
        argument1: 0,
        argument2: 0,
        argument3: 0,
    })
}

fn two_process_kernel() -> Kernel {
    Kernel::new(vec![Some(fresh_process(0, 10)), Some(fresh_process(1, 11))])
}

#[test]
fn new_kernel_has_no_work() {
    let kernel = two_process_kernel();
    assert_eq!(kernel.work, 0);
    assert!(kernel.processes_blocked());
    assert!(!kernel.grants_finalized);
    assert_eq!(kernel.grant_counter, 0);
}

#[test]
fn work_counter_tracks_tasks_and_running() {
    let mut kernel = two_process_kernel();
    assert!(kernel.enqueue_task(0, fc(0x20)));
    assert_eq!(kernel.work, 1);
    assert!(kernel.enqueue_task(1, fc(0x24)));
    assert_eq!(kernel.work, 2);
    let t = kernel.dequeue_task(0);
    assert!(t.is_some());
    assert_eq!(kernel.work, 1);
    // Installing the function call makes the process Running: still work.
    match kernel.dequeue_task(1) {
        Some(Task::FunctionCall(call)) => {
            kernel.set_process_function(1, call);
        }
        _ => panic!("expected the queued function call"),
    }
    assert_eq!(kernel.work, 1);
    assert_eq!(kernel.processes[1].as_ref().unwrap().state, State::Running);
}

#[test]
fn external_work_adjustments() {
    let mut kernel = two_process_kernel();
    let capability = ExternalProcessCapability {};
    kernel.increment_work_external(&capability);
    kernel.increment_work_external(&capability);
    assert_eq!(kernel.work, 2);
    kernel.decrement_work_external(&capability);
    assert_eq!(kernel.work, 1);
    assert!(!kernel.processes_blocked());
}

#[test]
fn task_queue_is_bounded() {
    let mut kernel = two_process_kernel();
    for i in 0..TASK_QUEUE_SIZE {
        assert!(kernel.enqueue_task(0, fc(i)));
    }
    // The queue is full now.
    assert!(!kernel.enqueue_task(0, fc(99)));
    assert_eq!(kernel.work, TASK_QUEUE_SIZE);
}

#[test]
fn enqueue_rejects_dead_and_missing_processes() {
    let mut kernel = Kernel::new(vec![Some(fresh_process(0, 10)), None]);
    kernel.terminate(0, 42);
    assert!(!kernel.enqueue_task(0, fc(1)));
    assert!(!kernel.enqueue_task(1, fc(1)));
    assert!(!kernel.enqueue_task(7, fc(1)));
    assert_eq!(
        kernel.processes[0].as_ref().unwrap().completion_code,
        Some(42)
    );
}

#[test]
fn lookup_and_validity() {
    let kernel = two_process_kernel();
    let pid = kernel.lookup_app_by_identifier(11).expect("app 11 exists");
    assert_eq!(pid.index, 1);
    assert_eq!(pid.id, 11);
    assert!(kernel.processid_is_valid(&pid));
    assert!(kernel.lookup_app_by_identifier(99).is_none());
    let stale = ProcessId { index: 1, id: 99 };
    assert!(!kernel.processid_is_valid(&stale));
}

#[test]
fn identifiers_are_minted_in_order() {
    let mut kernel = two_process_kernel();
    assert_eq!(kernel.create_process_identifier(), 0);
    assert_eq!(kernel.create_process_identifier(), 1);
    assert_eq!(kernel.create_process_identifier(), 2);
}

#[test]
fn grants_count_and_finalize() {
    let mut kernel = two_process_kernel();
    let capability = MemoryAllocationCapability {};
    let g1: Grant<u32> = kernel.create_grant(&capability);
    let g2: Grant<u32> = kernel.create_grant(&capability);
    assert_eq!(g1.grant_index, 0);
    assert_eq!(g2.grant_index, 1);
    assert_eq!(g1.slots.len(), 2);
    let external = ExternalProcessCapability {};
    let n = kernel.get_grant_count_and_finalize_external(&external);
    assert_eq!(n, 2);
    // The flag is one-way: creating another grant is no longer allowed.
    assert!(kernel.grants_finalized);
}

#[test]
fn restart_uses_a_fresh_generation() {
    let mut kernel = two_process_kernel();
    assert!(kernel.enqueue_task(0, fc(0x20)));
    kernel.try_restart(0, 7);
    let p = kernel.processes[0].as_ref().unwrap();
    assert_eq!(p.state, State::Unstarted);
    assert_eq!(p.tasks.len(), 0);
    assert_eq!(p.completion_code, Some(7));
    // The slot was reused with the next generation identifier.
    assert_eq!(p.identifier, 0);
    assert_eq!(kernel.process_identifier_max, 1);
    let old_pid = ProcessId { index: 0, id: 10 };
    assert!(!kernel.processid_is_valid(&old_pid));
}

#[test]
fn hardfault_all_apps_faults_everyone() {
    let mut kernel = two_process_kernel();
    assert!(kernel.enqueue_task(0, fc(0x20)));
    let capability = ProcessManagementCapability {};
    kernel.hardfault_all_apps(&capability);
    assert_eq!(kernel.work, 0);
    for slot in kernel.processes.iter() {
        let p = slot.as_ref().unwrap();
        assert_eq!(p.state, State::Faulted);
        assert_eq!(p.tasks.len(), 0);
    }
}

#[test]
fn remove_pending_upcalls_filters_exactly_one_slot() {
    let mut kernel = two_process_kernel();
    let id_a = UpcallId { driver_num: 3, subscribe_num: 0 };
    let id_b = UpcallId { driver_num: 5, subscribe_num: 1 };
    let task_a = Task::FunctionCall(FunctionCall {
        source: FunctionCallSource::Driver(id_a),
        pc: 0x30,
        argument0: 1,
        argument1: 2,
        argument2: 3,
        argument3: 4,
    });
    let task_b = Task::FunctionCall(FunctionCall {
        source: FunctionCallSource::Driver(id_b),
        pc: 0x40,
        argument0: 0,
        argument1: 0,
        argument2: 0,
        argument3: 0,
    });
    assert!(kernel.enqueue_task(0, task_a));
    assert!(kernel.enqueue_task(0, task_b));
    assert!(kernel.enqueue_task(0, task_a));
    let removed = kernel.remove_pending_upcalls(0, id_a);
    assert_eq!(removed, 2);
    let p = kernel.processes[0].as_ref().unwrap();
    assert_eq!(p.tasks.len(), 1);
    assert_eq!(p.tasks[0], task_b);
    assert_eq!(kernel.work, 1);
}

#[test]
fn schedule_upcall_skips_null_and_stale() {
    let mut kernel = two_process_kernel();
    let id = UpcallId { driver_num: 3, subscribe_num: 0 };
    let pid = ProcessId { index: 0, id: 10 };
    // Null upcall: nothing is queued.
    let null_upcall = Upcall::null(pid, id);
    assert!(!kernel.schedule_upcall(null_upcall, 1, 2, 3));
    // Stale identifier: nothing is queued.
    let stale = Upcall::new(ProcessId { index: 0, id: 99 }, id, 7, 0x50);
    assert!(!kernel.schedule_upcall(stale, 1, 2, 3));
    assert_eq!(kernel.work, 0);
    // A live target receives the upcall with its appdata as the fourth
    // argument word.
    let live = Upcall::new(pid, id, 7, 0x50);
    assert!(kernel.schedule_upcall(live, 1, 2, 3));
    let p = kernel.processes[0].as_ref().unwrap();
    assert_eq!(p.tasks.len(), 1);
    match p.tasks[0] {
        Task::FunctionCall(call) => {
            assert_eq!(call.pc, 0x50);
            assert_eq!(call.argument0, 1);
            assert_eq!(call.argument1, 2);
            assert_eq!(call.argument2, 3);
            assert_eq!(call.argument3, 7);
            assert_eq!(call.source, FunctionCallSource::Driver(id));
        }
        _ => panic!("expected a function-call task"),
    }
}

#[test]
fn set_byte_checks_bounds() {
    let mut kernel = two_process_kernel();
    assert!(kernel.set_byte(0, 0x1000, 0xab));
    assert_eq!(
        kernel.processes[0].as_ref().unwrap().get_byte(0x1000),
        Some(0xab)
    );
    // Below and above the region: rejected, nothing written.
    assert!(!kernel.set_byte(0, 0xfff, 1));
    assert!(!kernel.set_byte(0, 0x1040, 1));
}

#[test]
fn process_utilities() {
    let kernel = two_process_kernel();
    let pid = ProcessId { index: 0, id: 10 };
    let slot = kernel.process_map_or(usize::MAX, pid, |p| p.slot_index);
    assert_eq!(slot, 0);
    let stale = ProcessId { index: 0, id: 99 };
    let fallback = kernel.process_map_or(usize::MAX, stale, |p| p.slot_index);
    assert_eq!(fallback, usize::MAX);

    let ids = kernel.get_process_iter();
    assert_eq!(ids.len(), 2);
    assert_eq!(ids[0], ProcessId { index: 0, id: 10 });
    assert_eq!(ids[1], ProcessId { index: 1, id: 11 });

    let found = kernel.process_until(|p| if p.identifier == 11 { Some(p.slot_index) } else { None });
    assert_eq!(found, Some(1));
    let missing = kernel.process_until(|p| if p.identifier == 42 { Some(p.slot_index) } else { None });
    assert_eq!(missing, None::<usize>);

    kernel.process_each(|p| {
        assert!(p.identifier == 10 || p.identifier == 11);
    });
    let capability = ProcessManagementCapability {};
    kernel.process_each_capability(&capability, |p| {
        assert!(p.mem_base == 0x1000);
    });
}
