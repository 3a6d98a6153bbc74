//! Minimal inter-process-communication module: it only knows how to turn
//! a dequeued IPC task into an upcall on the process that queued it.
//! Payload semantics beyond upcall scheduling live outside the core.

use vstd::prelude::*;
use crate::errorcode::ErrorCode;
use crate::kernel::{driver_step, Kernel};
use crate::process::ProcessId;
use crate::upcall::{IpcType, Upcall};

verus! {

/// The argument word an IPC notification carries for its kind.
pub open spec fn spec_ipc_kind_word(kind: IpcType) -> usize {
    match kind {
        IpcType::Service => 0,
        IpcType::Client => 1,
    }
}

/// The IPC module: per process slot, the upcall registered for IPC
/// notifications.
pub struct Ipc {
    /// Index `i` holds the notification upcall of the process in kernel
    /// slot `i`; a null upcall where none was registered.
    pub registered: Vec<Upcall>,
}

impl Ipc {
    /// Build the module from the boot-time registration table.
    pub fn new(registered: Vec<Upcall>) -> (r: Ipc)
        ensures
            r.registered@ == registered@,
    {
        Ipc { registered }
    }

    /// Deliver an IPC notification: schedule `schedule_on`'s registered
    /// upcall with the peer's identifier and the notification kind.
    pub fn schedule_upcall(
        &self,
        kernel: &mut Kernel,
        schedule_on: ProcessId,
        called_from: ProcessId,
        kind: IpcType,
    ) -> (r: Result<(), ErrorCode>)
        requires
            old(kernel).wf(),
        ensures
            final(kernel).wf(),
            driver_step(*old(kernel), *final(kernel)),
            (schedule_on.index as int) >= self.registered@.len() ==> r == Err::<(), ErrorCode>(
                ErrorCode::NODEVICE,
            ) && final(kernel).processes@ == old(kernel).processes@,
            (schedule_on.index as int) < self.registered@.len() ==> {
                let up = self.registered@[schedule_on.index as int];
                &&& crate::kernel::spec_upcall_scheduled(
                    *old(kernel),
                    *final(kernel),
                    up,
                    called_from.id,
                    spec_ipc_kind_word(kind),
                    0,
                )
                &&& r == if up.fn_ptr != 0 && crate::kernel::pid_valid(*old(kernel), up.process_id)
                    && old(kernel).proc_at(up.process_id.index as int).spec_active() && old(
                    kernel,
                ).proc_at(up.process_id.index as int).tasks@.len()
                    < crate::kernel::TASK_QUEUE_SIZE {
                    Ok::<(), ErrorCode>(())
                } else {
                    Err::<(), ErrorCode>(ErrorCode::FAIL)
                }
            },
    {
        if schedule_on.index >= self.registered.len() {
            proof {
                crate::kernel::lemma_driver_step_refl(*kernel);
            }
            return Err(ErrorCode::NODEVICE);
        }
        let upcall = self.registered[schedule_on.index];
        let kind_word: usize = match kind {
            IpcType::Service => 0,
            IpcType::Client => 1,
        };
        if kernel.schedule_upcall(upcall, called_from.id, kind_word, 0) {
            Ok(())
        } else {
            Err(ErrorCode::FAIL)
        }
    }
}

} // verus!
