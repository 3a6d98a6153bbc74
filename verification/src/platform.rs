//! The platform contract: what a board supplies to the kernel core --
//! the driver registry behind `with_driver`, the optional syscall filter
//! and the process fault hook.
//!
//! Driver operations are constrained just enough for the core's own
//! guarantees to hold whatever the board installs: a subscribe or allow
//! call only reads the kernel (so it cannot disturb the caller's task
//! queue, which the dispatcher just cleaned), it echoes the rejected
//! argument back on failure, and a command call may only take a
//! [`driver_step`]: scheduling upcalls, never anything else.

use vstd::prelude::*;
use crate::errorcode::ErrorCode;
use crate::kernel::{driver_step, Kernel};
use crate::process::{Process, ProcessId, ProcessSlice};
use crate::syscall::{CommandReturn, Syscall};
use crate::upcall::Upcall;

verus! {

/// Interface a board implements to route syscalls to its drivers.
pub trait Platform: Sized {
    /// Which driver numbers the platform routes to a driver.
    spec fn spec_has_driver(&self, driver_num: usize) -> bool;

    /// Whether a driver is installed for `driver_num`.
    fn has_driver(&self, driver_num: usize) -> (r: bool)
        ensures
            r == self.spec_has_driver(driver_num),
    ;

    /// The filter decision the platform takes for this process and
    /// syscall: `None` admits the syscall, `Some(code)` rejects it.
    spec fn spec_filter_syscall(&self, process: Process, syscall: Syscall) -> Option<ErrorCode>;

    /// Check the platform's syscall filter policy.  `Ok` admits the
    /// syscall; `Err(code)` makes the dispatcher return `Failure(code)`
    /// to the process without running the syscall.
    fn filter_syscall(&self, process: &Process, syscall: &Syscall) -> (r: Result<(), ErrorCode>)
        ensures
            r == match self.spec_filter_syscall(*process, *syscall) {
                None => Ok::<(), ErrorCode>(()),
                Some(code) => Err::<(), ErrorCode>(code),
            },
    ;

    /// Whether this board handles process faults itself instead of
    /// letting the kernel fault the process.
    spec fn spec_handles_process_faults(&self) -> bool;

    /// Give the platform a chance to handle a process fault itself.
    /// Returns `true` when handled; otherwise the kernel faults the
    /// process.
    fn process_fault_hook(&self, process: &Process) -> (r: bool)
        ensures
            r == self.spec_handles_process_faults(),
    ;

    /// The read-write buffer the platform's driver currently holds for
    /// `(driver_num, subdriver_num, pid)`; the empty slice before the
    /// process ever shared one (or for a driver that takes no buffers).
    spec fn spec_held_readwrite(
        &self,
        driver_num: usize,
        subdriver_num: usize,
        pid: ProcessId,
    ) -> ProcessSlice;

    /// The read-only buffer the platform's driver currently holds, as
    /// [`Self::spec_held_readwrite`].
    spec fn spec_held_readonly(
        &self,
        driver_num: usize,
        subdriver_num: usize,
        pid: ProcessId,
    ) -> ProcessSlice;

    /// Route a Subscribe call to the driver: install `upcall` and hand
    /// back the previously installed one, or reject with the new upcall
    /// unchanged.
    fn driver_subscribe(
        &mut self,
        driver_num: usize,
        subdriver_num: usize,
        upcall: Upcall,
        pid: ProcessId,
        kernel: &Kernel,
    ) -> (r: Result<Upcall, (Upcall, ErrorCode)>)
        requires
            self.spec_has_driver(driver_num),
            kernel.wf(),
        ensures
            r matches Err((u, _)) ==> u == upcall,
            final(self).spec_handles_process_faults() == old(self).spec_handles_process_faults(),
    ;

    /// Route a Command call to the driver.  The driver may schedule
    /// upcalls through the kernel but may not disturb it otherwise.
    fn driver_command(
        &mut self,
        driver_num: usize,
        subdriver_num: usize,
        arg0: usize,
        arg1: usize,
        pid: ProcessId,
        kernel: &mut Kernel,
    ) -> (r: CommandReturn)
        requires
            self.spec_has_driver(driver_num),
            old(kernel).wf(),
        ensures
            driver_step(*old(kernel), *final(kernel)),
            final(self).spec_handles_process_faults() == old(self).spec_handles_process_faults(),
    ;

    /// Route a read-write Allow call to the driver: store the new slice
    /// and hand back the previously held one, or reject echoing the new
    /// slice.
    fn driver_allow_readwrite(
        &mut self,
        driver_num: usize,
        subdriver_num: usize,
        slice: ProcessSlice,
        pid: ProcessId,
        kernel: &Kernel,
    ) -> (r: Result<ProcessSlice, (ProcessSlice, ErrorCode)>)
        requires
            self.spec_has_driver(driver_num),
            kernel.wf(),
        ensures
            r matches Err((s, _)) ==> s == slice,
            r matches Ok(previous) ==> previous == old(self).spec_held_readwrite(
                driver_num,
                subdriver_num,
                pid,
            ) && final(self).spec_held_readwrite(driver_num, subdriver_num, pid) == slice,
            final(self).spec_handles_process_faults() == old(self).spec_handles_process_faults(),
    ;

    /// Route a read-only Allow call to the driver, as
    /// [`Self::driver_allow_readwrite`].
    fn driver_allow_readonly(
        &mut self,
        driver_num: usize,
        subdriver_num: usize,
        slice: ProcessSlice,
        pid: ProcessId,
        kernel: &Kernel,
    ) -> (r: Result<ProcessSlice, (ProcessSlice, ErrorCode)>)
        requires
            self.spec_has_driver(driver_num),
            kernel.wf(),
        ensures
            r matches Err((s, _)) ==> s == slice,
            r matches Ok(previous) ==> previous == old(self).spec_held_readonly(
                driver_num,
                subdriver_num,
                pid,
            ) && final(self).spec_held_readonly(driver_num, subdriver_num, pid) == slice,
            final(self).spec_handles_process_faults() == old(self).spec_handles_process_faults(),
    ;
}

/// A small board: the button capsule, the USB capsule and the
/// buffer-sharing capsule, with an all-or-nothing syscall filter.
pub struct SimplePlatform {
    pub button: crate::button::Button,
    pub usb: crate::usb_user::UsbSyscallDriver,
    pub slices: crate::slice_share::SliceShare,
    /// When set, every filterable syscall is rejected with this code.
    pub filter_error: Option<ErrorCode>,
}

impl Platform for SimplePlatform {
    open spec fn spec_has_driver(&self, driver_num: usize) -> bool {
        ||| driver_num == crate::button::DRIVER_NUM
        ||| driver_num == crate::usb_user::DRIVER_NUM
        ||| driver_num == crate::slice_share::DRIVER_NUM
    }

    open spec fn spec_filter_syscall(&self, _process: Process, _syscall: Syscall) -> Option<
        ErrorCode,
    > {
        self.filter_error
    }

    open spec fn spec_handles_process_faults(&self) -> bool {
        false
    }

    open spec fn spec_held_readwrite(
        &self,
        driver_num: usize,
        subdriver_num: usize,
        pid: ProcessId,
    ) -> ProcessSlice {
        if driver_num == crate::slice_share::DRIVER_NUM && subdriver_num == 0 {
            crate::grant::spec_grant_value(
                self.slices.buffers,
                pid,
                crate::slice_share::SliceShare::spec_default_slices(),
            ).readwrite
        } else {
            ProcessSlice { ptr: 0, len: 0 }
        }
    }

    open spec fn spec_held_readonly(
        &self,
        driver_num: usize,
        subdriver_num: usize,
        pid: ProcessId,
    ) -> ProcessSlice {
        if driver_num == crate::slice_share::DRIVER_NUM && subdriver_num == 0 {
            crate::grant::spec_grant_value(
                self.slices.buffers,
                pid,
                crate::slice_share::SliceShare::spec_default_slices(),
            ).readonly
        } else {
            ProcessSlice { ptr: 0, len: 0 }
        }
    }

    fn has_driver(&self, driver_num: usize) -> (r: bool) {
        driver_num == crate::button::DRIVER_NUM || driver_num == crate::usb_user::DRIVER_NUM
            || driver_num == crate::slice_share::DRIVER_NUM
    }

    fn filter_syscall(&self, _process: &Process, _syscall: &Syscall) -> (r: Result<
        (),
        ErrorCode,
    >) {
        match self.filter_error {
            Some(code) => Err(code),
            None => Ok(()),
        }
    }

    fn process_fault_hook(&self, _process: &Process) -> (r: bool) {
        // This board does not handle process faults itself.
        false
    }

    fn driver_subscribe(
        &mut self,
        driver_num: usize,
        subdriver_num: usize,
        upcall: Upcall,
        pid: ProcessId,
        kernel: &Kernel,
    ) -> (r: Result<Upcall, (Upcall, ErrorCode)>) {
        if driver_num == crate::button::DRIVER_NUM {
            self.button.subscribe(subdriver_num, upcall, pid, kernel)
        } else if driver_num == crate::usb_user::DRIVER_NUM {
            self.usb.subscribe(subdriver_num, upcall, pid, kernel)
        } else {
            self.slices.subscribe(subdriver_num, upcall, pid)
        }
    }

    fn driver_command(
        &mut self,
        driver_num: usize,
        subdriver_num: usize,
        arg0: usize,
        arg1: usize,
        pid: ProcessId,
        kernel: &mut Kernel,
    ) -> (r: CommandReturn) {
        if driver_num == crate::button::DRIVER_NUM {
            let c = self.button.command(subdriver_num, arg0, arg1, pid, kernel);
            proof {
                crate::kernel::lemma_driver_step_refl(*kernel);
            }
            c
        } else if driver_num == crate::usb_user::DRIVER_NUM {
            self.usb.command(subdriver_num, arg0, arg1, pid, kernel)
        } else {
            let c = self.slices.command(subdriver_num, arg0, arg1, pid);
            proof {
                crate::kernel::lemma_driver_step_refl(*kernel);
            }
            c
        }
    }

    fn driver_allow_readwrite(
        &mut self,
        driver_num: usize,
        subdriver_num: usize,
        slice: ProcessSlice,
        pid: ProcessId,
        kernel: &Kernel,
    ) -> (r: Result<ProcessSlice, (ProcessSlice, ErrorCode)>) {
        if driver_num == crate::slice_share::DRIVER_NUM {
            self.slices.allow_readwrite(pid, subdriver_num, slice, kernel)
        } else {
            // Neither the button capsule nor the USB capsule accepts
            // shared buffers.
            Err((slice, ErrorCode::NOSUPPORT))
        }
    }

    fn driver_allow_readonly(
        &mut self,
        driver_num: usize,
        subdriver_num: usize,
        slice: ProcessSlice,
        pid: ProcessId,
        kernel: &Kernel,
    ) -> (r: Result<ProcessSlice, (ProcessSlice, ErrorCode)>) {
        if driver_num == crate::slice_share::DRIVER_NUM {
            self.slices.allow_readonly(pid, subdriver_num, slice, kernel)
        } else {
            Err((slice, ErrorCode::NOSUPPORT))
        }
    }
}

} // verus!
