//! A minimal capsule exercising the Allow protocol: it stores, per
//! process, the read-write and read-only buffers the process shared and
//! hands the previously held buffer back on each new Allow -- the empty
//! slice the first time.  Returning the old buffer through the syscall is
//! what lets userspace know the kernel no longer references it.

use vstd::prelude::*;
use crate::errorcode::ErrorCode;
use crate::grant::{grant_access_ok, spec_grant_value, Grant};
use crate::kernel::Kernel;
use crate::process::{ProcessId, ProcessSlice};
use crate::syscall::CommandReturn;
use crate::upcall::Upcall;

verus! {

/// Syscall driver number of the buffer-sharing capsule.
pub const DRIVER_NUM: usize = 65537;

/// The buffers one process currently shares with the capsule.
#[derive(Clone, Copy, Debug, PartialEq, Eq, Structural)]
pub struct SharedSlices {
    pub readwrite: ProcessSlice,
    pub readonly: ProcessSlice,
}

/// The buffer-sharing capsule.
pub struct SliceShare {
    pub buffers: Grant<SharedSlices>,
}

impl SliceShare {
    /// What a process holds before it ever shared anything: two empty
    /// slices.
    pub fn default_slices() -> (r: SharedSlices)
        ensures
            r == SliceShare::spec_default_slices(),
    {
        SharedSlices {
            readwrite: ProcessSlice { ptr: 0, len: 0 },
            readonly: ProcessSlice { ptr: 0, len: 0 },
        }
    }

    /// See [`SliceShare::default_slices`].
    pub open spec fn spec_default_slices() -> SharedSlices {
        SharedSlices {
            readwrite: ProcessSlice { ptr: 0, len: 0 },
            readonly: ProcessSlice { ptr: 0, len: 0 },
        }
    }

    /// Create the capsule around its grant.
    pub fn new(buffers: Grant<SharedSlices>) -> (d: SliceShare)
        ensures
            d.buffers == buffers,
    {
        SliceShare { buffers }
    }

    /// Accept a read-write buffer on allow number 0: store it and return
    /// the buffer previously held for this process (empty the first
    /// time).  Other allow numbers, and vanished processes, reject the
    /// call with the new buffer echoed back.
    pub fn allow_readwrite(
        &mut self,
        app_id: ProcessId,
        allow_num: usize,
        slice: ProcessSlice,
        kernel: &Kernel,
    ) -> (r: Result<ProcessSlice, (ProcessSlice, ErrorCode)>)
        ensures
            allow_num != 0 ==> r == Err::<ProcessSlice, (ProcessSlice, ErrorCode)>(
                (slice, ErrorCode::NOSUPPORT),
            ) && *final(self) == *old(self),
            allow_num == 0 && !grant_access_ok(old(self).buffers, *kernel, app_id) ==> r == Err::<
                ProcessSlice,
                (ProcessSlice, ErrorCode),
            >((slice, ErrorCode::NOMEM)) && *final(self) == *old(self),
            allow_num == 0 && grant_access_ok(old(self).buffers, *kernel, app_id) ==> {
                &&& r == Ok::<ProcessSlice, (ProcessSlice, ErrorCode)>(
                    spec_grant_value(
                        old(self).buffers,
                        app_id,
                        SliceShare::spec_default_slices(),
                    ).readwrite,
                )
                &&& spec_grant_value(
                    final(self).buffers,
                    app_id,
                    SliceShare::spec_default_slices(),
                ) == (SharedSlices {
                    readwrite: slice,
                    readonly: spec_grant_value(
                        old(self).buffers,
                        app_id,
                        SliceShare::spec_default_slices(),
                    ).readonly,
                })
                &&& final(self).buffers.slots@.len() == old(self).buffers.slots@.len()
            },
    {
        if allow_num != 0 {
            return Err((slice, ErrorCode::NOSUPPORT));
        }
        match self.buffers.enter_get(app_id, kernel, SliceShare::default_slices()) {
            Err(e) => Err((slice, e)),
            Ok(current) => {
                match self.buffers.enter_put(
                    app_id,
                    kernel,
                    SharedSlices { readwrite: slice, readonly: current.readonly },
                ) {
                    Ok(()) => Ok(current.readwrite),
                    Err(e) => Err((slice, e)),
                }
            },
        }
    }

    /// Accept a read-only buffer on allow number 0, as
    /// [`Self::allow_readwrite`].
    pub fn allow_readonly(
        &mut self,
        app_id: ProcessId,
        allow_num: usize,
        slice: ProcessSlice,
        kernel: &Kernel,
    ) -> (r: Result<ProcessSlice, (ProcessSlice, ErrorCode)>)
        ensures
            allow_num != 0 ==> r == Err::<ProcessSlice, (ProcessSlice, ErrorCode)>(
                (slice, ErrorCode::NOSUPPORT),
            ) && *final(self) == *old(self),
            allow_num == 0 && !grant_access_ok(old(self).buffers, *kernel, app_id) ==> r == Err::<
                ProcessSlice,
                (ProcessSlice, ErrorCode),
            >((slice, ErrorCode::NOMEM)) && *final(self) == *old(self),
            allow_num == 0 && grant_access_ok(old(self).buffers, *kernel, app_id) ==> {
                &&& r == Ok::<ProcessSlice, (ProcessSlice, ErrorCode)>(
                    spec_grant_value(
                        old(self).buffers,
                        app_id,
                        SliceShare::spec_default_slices(),
                    ).readonly,
                )
                &&& spec_grant_value(
                    final(self).buffers,
                    app_id,
                    SliceShare::spec_default_slices(),
                ) == (SharedSlices {
                    readwrite: spec_grant_value(
                        old(self).buffers,
                        app_id,
                        SliceShare::spec_default_slices(),
                    ).readwrite,
                    readonly: slice,
                })
                &&& final(self).buffers.slots@.len() == old(self).buffers.slots@.len()
            },
    {
        if allow_num != 0 {
            return Err((slice, ErrorCode::NOSUPPORT));
        }
        match self.buffers.enter_get(app_id, kernel, SliceShare::default_slices()) {
            Err(e) => Err((slice, e)),
            Ok(current) => {
                match self.buffers.enter_put(
                    app_id,
                    kernel,
                    SharedSlices { readwrite: current.readwrite, readonly: slice },
                ) {
                    Ok(()) => Ok(current.readonly),
                    Err(e) => Err((slice, e)),
                }
            },
        }
    }

    /// The capsule answers its presence check and nothing else.
    pub fn command(&mut self, command_num: usize, _arg0: usize, _arg1: usize, _appid: ProcessId) -> (r:
        CommandReturn)
        ensures
            *final(self) == *old(self),
            command_num == 0 ==> r == CommandReturn::Success,
            command_num != 0 ==> r == CommandReturn::Failure(ErrorCode::NOSUPPORT),
    {
        if command_num == 0 {
            CommandReturn::success()
        } else {
            CommandReturn::failure(ErrorCode::NOSUPPORT)
        }
    }

    /// The capsule has no upcalls to subscribe to.
    pub fn subscribe(&mut self, _subscribe_num: usize, callback: Upcall, _app_id: ProcessId) -> (r:
        Result<Upcall, (Upcall, ErrorCode)>)
        ensures
            *final(self) == *old(self),
            r == Err::<Upcall, (Upcall, ErrorCode)>((callback, ErrorCode::NOSUPPORT)),
    {
        Err((callback, ErrorCode::NOSUPPORT))
    }
}

/// A successful read-write allow: the previously shared buffer comes
/// back and the new one is stored, leaving the read-only buffer alone.
pub open spec fn allow_readwrite_swaps(
    pre: SliceShare,
    post: SliceShare,
    kernel: Kernel,
    app_id: ProcessId,
    slice: ProcessSlice,
    r: Result<ProcessSlice, (ProcessSlice, ErrorCode)>,
) -> bool {
    &&& grant_access_ok(pre.buffers, kernel, app_id)
    &&& r == Ok::<ProcessSlice, (ProcessSlice, ErrorCode)>(
        spec_grant_value(pre.buffers, app_id, SliceShare::spec_default_slices()).readwrite,
    )
    &&& spec_grant_value(post.buffers, app_id, SliceShare::spec_default_slices()).readwrite
        == slice
}

/// Every successful Allow returns exactly what the capsule held for the
/// caller before the call, and two Allows in a row therefore hand the
/// first buffer back on the second call; the very first Allow of a
/// process returns the empty slice.
pub proof fn lemma_allow_round_trip(
    d0: SliceShare,
    d1: SliceShare,
    d2: SliceShare,
    kernel: Kernel,
    app_id: ProcessId,
    first: ProcessSlice,
    second: ProcessSlice,
    r1: Result<ProcessSlice, (ProcessSlice, ErrorCode)>,
    r2: Result<ProcessSlice, (ProcessSlice, ErrorCode)>,
)
    requires
        allow_readwrite_swaps(d0, d1, kernel, app_id, first, r1),
        allow_readwrite_swaps(d1, d2, kernel, app_id, second, r2),
        spec_grant_value(d0.buffers, app_id, SliceShare::spec_default_slices())
            == SliceShare::spec_default_slices(),
    ensures
        r1 == Ok::<ProcessSlice, (ProcessSlice, ErrorCode)>(ProcessSlice { ptr: 0, len: 0 }),
        r2 == Ok::<ProcessSlice, (ProcessSlice, ErrorCode)>(first),
{
}

} // verus!
