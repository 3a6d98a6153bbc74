//! Memory-operation syscalls.
//!
//! Memory layout computation lives outside the scheduling core; the core
//! only guarantees that every Memop syscall gets a return value.  This
//! module declines every operation, which is the policy for a board
//! without userspace memory management.

use vstd::prelude::*;
use crate::errorcode::ErrorCode;
use crate::process::Process;
use crate::syscall::SyscallReturn;

verus! {

/// The value every memory operation returns here.
pub open spec fn spec_memop(operand: usize, arg0: usize) -> SyscallReturn {
    SyscallReturn::Failure(ErrorCode::NOSUPPORT)
}

/// Service a Memop syscall for `process`.
pub fn memop(_process: &Process, operand: usize, arg0: usize) -> (r: SyscallReturn)
    ensures
        r == spec_memop(operand, arg0),
{
    SyscallReturn::Failure(ErrorCode::NOSUPPORT)
}

} // verus!
