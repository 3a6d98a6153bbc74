//! Syscall ABI: decoded system calls, syscall return values, and the
//! reasons a context switch back into the kernel can occur.

use vstd::prelude::*;
use crate::errorcode::ErrorCode;

verus! {

/// A decoded system call invoked by a user process.
///
/// Addresses and pointers in the ABI are carried as plain machine words.
#[derive(Clone, Copy, Debug, PartialEq, Eq, Structural)]
pub enum Syscall {
    /// Yield the processor: `which` 0 is yield-no-wait, 1 is yield-wait;
    /// `address` is the user flag byte the kernel writes to report whether
    /// an upcall was (or will be) invoked.
    Yield { which: usize, address: usize },
    /// Install an upcall for `(driver_number, subdriver_number)`.
    Subscribe {
        driver_number: usize,
        subdriver_number: usize,
        upcall_ptr: usize,
        appdata: usize,
    },
    /// Invoke a driver command.
    Command {
        driver_number: usize,
        subdriver_number: usize,
        arg0: usize,
        arg1: usize,
    },
    /// Share a read-write memory region with a driver.
    ReadWriteAllow {
        driver_number: usize,
        subdriver_number: usize,
        allow_address: usize,
        allow_size: usize,
    },
    /// Share a read-only memory region with a driver.
    ReadOnlyAllow {
        driver_number: usize,
        subdriver_number: usize,
        allow_address: usize,
        allow_size: usize,
    },
    /// Memory operation handled by the memop module.
    Memop { operand: usize, arg0: usize },
    /// Exit: `which` 0 terminates, 1 requests a restart.
    Exit { which: usize, completion_code: usize },
}

/// The value the kernel stores for the process as the result of a syscall.
#[derive(Clone, Copy, Debug, PartialEq, Eq, Structural)]
pub enum SyscallReturn {
    Success,
    SuccessU32(u32),
    SuccessU32U32(u32, u32),
    SuccessU64(u64),
    Failure(ErrorCode),
    FailureU32(ErrorCode, u32),
    FailureU32U32(ErrorCode, u32, u32),
    /// Successful read-write allow: previous buffer's address and length.
    AllowReadWriteSuccess(usize, usize),
    /// Failed read-write allow: error plus the rejected address and length.
    AllowReadWriteFailure(ErrorCode, usize, usize),
    /// Successful read-only allow: previous buffer's address and length.
    AllowReadOnlySuccess(usize, usize),
    /// Failed read-only allow: error plus the rejected address and length.
    AllowReadOnlyFailure(ErrorCode, usize, usize),
    /// Successful subscribe: previous upcall's function pointer and appdata.
    SubscribeSuccess(usize, usize),
    /// Failed subscribe: error plus the rejected pointer and appdata.
    SubscribeFailure(ErrorCode, usize, usize),
}

/// The restricted set of return values a driver command may produce.
#[derive(Clone, Copy, Debug, PartialEq, Eq, Structural)]
pub enum CommandReturn {
    Success,
    SuccessU32(u32),
    SuccessU32U32(u32, u32),
    SuccessU64(u64),
    Failure(ErrorCode),
    FailureU32(ErrorCode, u32),
    FailureU32U32(ErrorCode, u32, u32),
}

impl CommandReturn {
    /// Command succeeded with no payload.
    pub fn success() -> (r: CommandReturn)
        ensures
            r == CommandReturn::Success,
    {
        CommandReturn::Success
    }

    /// Command succeeded with one word of payload.
    pub fn success_u32(v: u32) -> (r: CommandReturn)
        ensures
            r == CommandReturn::SuccessU32(v),
    {
        CommandReturn::SuccessU32(v)
    }

    /// Command failed with the given error.
    pub fn failure(e: ErrorCode) -> (r: CommandReturn)
        ensures
            r == CommandReturn::Failure(e),
    {
        CommandReturn::Failure(e)
    }
}

/// What a command return looks like once widened to a syscall return.
pub open spec fn spec_from_command_return(c: CommandReturn) -> SyscallReturn {
    match c {
        CommandReturn::Success => SyscallReturn::Success,
        CommandReturn::SuccessU32(a) => SyscallReturn::SuccessU32(a),
        CommandReturn::SuccessU32U32(a, b) => SyscallReturn::SuccessU32U32(a, b),
        CommandReturn::SuccessU64(a) => SyscallReturn::SuccessU64(a),
        CommandReturn::Failure(e) => SyscallReturn::Failure(e),
        CommandReturn::FailureU32(e, a) => SyscallReturn::FailureU32(e, a),
        CommandReturn::FailureU32U32(e, a, b) => SyscallReturn::FailureU32U32(e, a, b),
    }
}

impl SyscallReturn {
    /// Widen a driver command return into a syscall return value.
    pub fn from_command_return(c: CommandReturn) -> (r: SyscallReturn)
        ensures
            r == spec_from_command_return(c),
    {
        match c {
            CommandReturn::Success => SyscallReturn::Success,
            CommandReturn::SuccessU32(a) => SyscallReturn::SuccessU32(a),
            CommandReturn::SuccessU32U32(a, b) => SyscallReturn::SuccessU32U32(a, b),
            CommandReturn::SuccessU64(a) => SyscallReturn::SuccessU64(a),
            CommandReturn::Failure(e) => SyscallReturn::Failure(e),
            CommandReturn::FailureU32(e, a) => SyscallReturn::FailureU32(e, a),
            CommandReturn::FailureU32U32(e, a, b) => SyscallReturn::FailureU32U32(e, a, b),
        }
    }
}

/// Why control returned from user mode to the kernel.
#[derive(Clone, Copy, Debug, PartialEq, Eq, Structural)]
pub enum ContextSwitchReason {
    /// The process violated its memory bounds or otherwise faulted.
    Fault,
    /// The process invoked a system call.
    SyscallFired { syscall: Syscall },
    /// A hardware interrupt (possibly the preemption timer) fired.
    Interrupted,
}

} // verus!
