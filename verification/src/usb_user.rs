//! USB system call interface.
//!
//! The capsule fronts the board's USB controller.  Command 0 reports the
//! driver's presence, command 1 records an enable-and-attach request for
//! the calling app (`BUSY` while one is already recorded) and then asks
//! the serving helper to work the queue: with no operation in progress,
//! the helper picks the first app with a pending request, performs the
//! operation on the controller synchronously, schedules that app's
//! completion upcall (subscribe slot 0) and clears its request.

use vstd::prelude::*;
use crate::errorcode::ErrorCode;
use crate::grant::{grant_access_ok, spec_grant_value, Grant};
use crate::kernel::{driver_step, Kernel};
use crate::process::ProcessId;
use crate::syscall::CommandReturn;
use crate::upcall::{Upcall, UpcallId};

verus! {

/// Syscall driver number of the USB capsule.
pub const DRIVER_NUM: usize = 131077;

/// The board's USB controller, as the capsule drives it.
#[derive(Clone, Copy, Debug, PartialEq, Eq, Structural)]
pub struct UsbController {
    pub enabled: bool,
    pub attached: bool,
}

impl UsbController {
    /// A powered-down, detached controller.
    pub fn new() -> (c: UsbController)
        ensures
            c == (UsbController { enabled: false, attached: false }),
    {
        UsbController { enabled: false, attached: false }
    }
}

/// An operation an app asked the capsule to perform.
#[derive(Clone, Copy, Debug, PartialEq, Eq, Structural)]
pub enum Request {
    EnableAndAttach,
}

/// The grant entry of one process: its completion callback and the
/// request it is waiting on, if any.
#[derive(Clone, Copy, Debug, PartialEq, Eq, Structural)]
pub struct App {
    pub callback: Upcall,
    pub awaiting: Option<Request>,
}

/// The USB syscall driver.
pub struct UsbSyscallDriver {
    pub usbc_client: UsbController,
    pub apps: Grant<App>,
    /// The app whose asynchronous operation is in progress; empty in the
    /// synchronous model, where every request completes inside the
    /// serving helper.
    pub serving_app: Option<ProcessId>,
}

/// Process `j` has a request recorded.
pub open spec fn spec_waiting(g: Grant<App>, k: Kernel, j: int) -> bool {
    &&& k.live_at(j)
    &&& k.proc_at(j).spec_active()
    &&& j < g.slots@.len()
    &&& spec_grant_value(g, k.proc_at(j).spec_processid(), UsbSyscallDriver::spec_default_app()).awaiting
        is Some
}

/// The serving helper's effect when some app was waiting: the first
/// waiting slot `f` had its request served -- its entry is rewritten
/// with the request cleared and its completion callback was scheduled on
/// the kernel with a success status.
pub open spec fn served_first_waiter(
    mid: Grant<App>,
    post: Grant<App>,
    k0: Kernel,
    post_k: Kernel,
    f: int,
) -> bool {
    let pid_f = k0.proc_at(f).spec_processid();
    let cb = spec_grant_value(mid, pid_f, UsbSyscallDriver::spec_default_app()).callback;
    &&& spec_waiting(mid, k0, f)
    &&& (forall|t: int| 0 <= t < f ==> !spec_waiting(mid, k0, t))
    &&& post.slots@ == mid.slots@.update(
        pid_f.index as int,
        crate::grant::GrantSlot {
            owner_id: pid_f.id,
            value: Some(App { callback: cb, awaiting: None }),
        },
    )
    &&& crate::kernel::spec_upcall_scheduled(k0, post_k, cb, 0, 0, 0)
}

impl UsbSyscallDriver {
    /// The grant entry of a process that never interacted: a null
    /// callback and no pending request.
    pub fn default_app() -> (r: App)
        ensures
            r == UsbSyscallDriver::spec_default_app(),
    {
        App {
            callback: Upcall {
                process_id: ProcessId { index: 0, id: 0 },
                upcall_id: UpcallId { driver_num: 0, subscribe_num: 0 },
                appdata: 0,
                fn_ptr: 0,
            },
            awaiting: None,
        }
    }

    /// See [`UsbSyscallDriver::default_app`].
    pub open spec fn spec_default_app() -> App {
        App {
            callback: Upcall {
                process_id: ProcessId { index: 0, id: 0 },
                upcall_id: UpcallId { driver_num: 0, subscribe_num: 0 },
                appdata: 0,
                fn_ptr: 0,
            },
            awaiting: None,
        }
    }

    /// Create the driver around the controller and its grant.
    pub fn new(usbc_client: UsbController, apps: Grant<App>) -> (d: UsbSyscallDriver)
        ensures
            d.usbc_client == usbc_client,
            d.apps == apps,
            d.serving_app is None,
    {
        UsbSyscallDriver { usbc_client, apps, serving_app: None }
    }

    /// Find a waiting app and perform its requested operation.  With an
    /// operation already in progress this does nothing; otherwise the
    /// first waiting app (in slot order) is served synchronously: the
    /// controller is enabled and attached, the app's callback is
    /// scheduled with a success status, and its request is cleared.
    pub fn serve_waiting_apps(&mut self, kernel: &mut Kernel)
        requires
            old(kernel).wf(),
        ensures
            final(kernel).wf(),
            driver_step(*old(kernel), *final(kernel)),
            old(self).serving_app is Some ==> *final(self) == *old(self) && final(kernel).processes@ == old(kernel).processes@,
            old(self).serving_app is None ==> {
                &&& final(self).serving_app is None
                &&& final(self).apps.slots@.len() == old(self).apps.slots@.len()
                &&& (!(exists|j: int| spec_waiting(old(self).apps, *old(kernel), j)) ==> *final(self) == *old(self) && final(kernel).processes@ == old(kernel).processes@)
                &&& ((exists|j: int| spec_waiting(old(self).apps, *old(kernel), j)) ==> {
                    &&& final(self).usbc_client == (UsbController {
                        enabled: true,
                        attached: true,
                    })
                    &&& exists|f: int|
                        #[trigger] served_first_waiter(
                            old(self).apps,
                            final(self).apps,
                            *old(kernel),
                            *final(kernel),
                            f,
                        )
                })
            },
    {
        if self.serving_app.is_some() {
            // An operation on the USB controller is in progress.
            proof {
                crate::kernel::lemma_driver_step_refl(*kernel);
            }
            return ;
        }
        // Find a waiting app and start its requested computation.
        let n = self.apps.num_slots();
        let mut j: usize = 0;
        while j < n
            invariant
                kernel.wf(),
                n == self.apps.slots@.len(),
                j <= n,
                self.serving_app is None,
                old(self).serving_app is None,
                *kernel == *old(kernel),
                self.apps == old(self).apps,
                self.usbc_client == old(self).usbc_client,
                forall|t: int| 0 <= t < j ==> !spec_waiting(self.apps, *kernel, t),
            decreases n - j,
        {
            match self.apps.entry_at(j, kernel, UsbSyscallDriver::default_app()) {
                Some((pid, app)) => {
                    match app.awaiting {
                        Some(request) => {
                            proof {
                                assert(spec_waiting(self.apps, *kernel, j as int));
                            }
                            match request {
                                Request::EnableAndAttach => {
                                    // Enable and attach (synchronously).
                                    self.usbc_client = UsbController {
                                        enabled: true,
                                        attached: true,
                                    };
                                    // Schedule a callback immediately:
                                    // the operation succeeded.
                                    let _ = kernel.schedule_upcall(app.callback, 0, 0, 0);
                                    let cleared = App {
                                        callback: app.callback,
                                        awaiting: None,
                                    };
                                    let _ = self.apps.enter_put(pid, kernel, cleared);
                                    proof {
                                        assert(crate::kernel::slot_inv(
                                            old(kernel).processes@[j as int],
                                            j as int,
                                        ));
                                        assert(served_first_waiter(
                                            old(self).apps,
                                            self.apps,
                                            *old(kernel),
                                            *kernel,
                                            j as int,
                                        ));
                                    }
                                    return ;
                                },
                            }
                        },
                        None => {
                            proof {
                                assert(!spec_waiting(self.apps, *kernel, j as int));
                            }
                        },
                    }
                },
                None => {
                    proof {
                        assert(!spec_waiting(self.apps, *kernel, j as int));
                    }
                },
            }
            j = j + 1;
        }
        // No userspace requests pending at this time.
        proof {
            crate::kernel::lemma_driver_step_refl(*kernel);
        }
    }

    /// Record the caller's enable-and-attach request and run the serving
    /// helper.  With no operation in progress the controller ends up
    /// enabled and attached; the caller's own request is served at once
    /// unless an app in an earlier slot was already waiting, in which
    /// case the request stays recorded for a later serving round.
    #[verifier::rlimit(100)]
    fn enable_and_attach(&mut self, appid: ProcessId, current: App, kernel: &mut Kernel) -> (r:
        CommandReturn)
        requires
            old(kernel).wf(),
            grant_access_ok(old(self).apps, *old(kernel), appid),
            current == spec_grant_value(
                old(self).apps,
                appid,
                UsbSyscallDriver::spec_default_app(),
            ),
            current.awaiting is None,
        ensures
            final(kernel).wf(),
            crate::kernel::driver_step(*old(kernel), *final(kernel)),
            r == CommandReturn::Success,
            final(self).serving_app == old(self).serving_app,
            final(self).apps.slots@.len() == old(self).apps.slots@.len(),
            old(self).serving_app is Some ==> {
                &&& final(self).usbc_client == old(self).usbc_client
                &&& spec_grant_value(
                    final(self).apps,
                    appid,
                    UsbSyscallDriver::spec_default_app(),
                ) == (App {
                    callback: current.callback,
                    awaiting: Some(Request::EnableAndAttach),
                })
                &&& final(kernel).processes@ == old(kernel).processes@
            },
            old(self).serving_app is None ==> {
                &&& final(self).usbc_client == (UsbController { enabled: true, attached: true })
                &&& ((forall|t: int|
                    0 <= t < appid.index ==> !spec_waiting(old(self).apps, *old(kernel), t))
                    ==> {
                    &&& spec_grant_value(
                        final(self).apps,
                        appid,
                        UsbSyscallDriver::spec_default_app(),
                    ) == (App { callback: current.callback, awaiting: None })
                    &&& crate::kernel::spec_upcall_scheduled(
                        *old(kernel),
                        *final(kernel),
                        current.callback,
                        0,
                        0,
                        0,
                    )
                })
                &&& ((exists|t: int|
                    0 <= t < appid.index && spec_waiting(old(self).apps, *old(kernel), t))
                    ==> spec_grant_value(
                    final(self).apps,
                    appid,
                    UsbSyscallDriver::spec_default_app(),
                ) == (App {
                    callback: current.callback,
                    awaiting: Some(Request::EnableAndAttach),
                }))
            },
    {
        let updated = App {
            callback: current.callback,
            awaiting: Some(Request::EnableAndAttach),
        };
        match self.apps.enter_put(appid, kernel, updated) {
            Err(_e) => {
                // The process was just checked to be live.
                proof {
                    assert(false);
                }
                CommandReturn::failure(ErrorCode::NOMEM)
            },
            Ok(()) => {
                let ghost mid_self = *self;
                let ghost k0 = *kernel;
                self.serve_waiting_apps(kernel);
                proof {
                    assert(crate::kernel::slot_inv(
                        k0.processes@[appid.index as int],
                        appid.index as int,
                    ));
                    assert(k0.proc_at(appid.index as int).spec_processid() == appid);
                    if old(self).serving_app is None {
                        assert(spec_waiting(mid_self.apps, k0, appid.index as int));
                        let f = choose|f: int|
                            spec_waiting(mid_self.apps, k0, f) && (forall|t: int|
                                0 <= t < f ==> !spec_waiting(mid_self.apps, k0, t));
                        assert(spec_waiting(mid_self.apps, k0, f) && (forall|t: int|
                            0 <= t < f ==> !spec_waiting(mid_self.apps, k0, t)));
                        if forall|t: int|
                            0 <= t < appid.index ==> !spec_waiting(old(self).apps, k0, t) {
                            assert forall|t: int|
                                0 <= t < appid.index implies !spec_waiting(
                                mid_self.apps,
                                k0,
                                t,
                            ) by {
                                assert(crate::kernel::slot_inv(k0.processes@[t], t));
                                assert(!spec_waiting(old(self).apps, k0, t));
                            }
                            assert(f == appid.index as int);
                        } else {
                            let t0 = choose|t0: int|
                                0 <= t0 < appid.index && spec_waiting(old(self).apps, k0, t0);
                            assert(0 <= t0 < appid.index && spec_waiting(old(self).apps, k0, t0));
                            assert(spec_waiting(mid_self.apps, k0, t0)) by {
                                assert(crate::kernel::slot_inv(k0.processes@[t0], t0));
                            }
                            assert(f <= t0);
                            assert(crate::kernel::slot_inv(k0.processes@[f], f));
                        }
                    }
                }
                CommandReturn::success()
            },
        }
    }

    /// Install `callback` as the caller's completion upcall and return
    /// the previously installed one; subscribe numbers other than 0 and
    /// vanished processes reject the call with the new callback echoed.
    pub fn subscribe(
        &mut self,
        subscribe_num: usize,
        callback: Upcall,
        app_id: ProcessId,
        kernel: &Kernel,
    ) -> (r: Result<Upcall, (Upcall, ErrorCode)>)
        ensures
            final(self).usbc_client == old(self).usbc_client,
            final(self).serving_app == old(self).serving_app,
            subscribe_num != 0 ==> r == Err::<Upcall, (Upcall, ErrorCode)>(
                (callback, ErrorCode::NOSUPPORT),
            ) && *final(self) == *old(self),
            subscribe_num == 0 && !grant_access_ok(old(self).apps, *kernel, app_id) ==> r == Err::<
                Upcall,
                (Upcall, ErrorCode),
            >((callback, ErrorCode::NOMEM)) && *final(self) == *old(self),
            subscribe_num == 0 && grant_access_ok(old(self).apps, *kernel, app_id) ==> {
                &&& r == Ok::<Upcall, (Upcall, ErrorCode)>(
                    spec_grant_value(
                        old(self).apps,
                        app_id,
                        UsbSyscallDriver::spec_default_app(),
                    ).callback,
                )
                &&& spec_grant_value(
                    final(self).apps,
                    app_id,
                    UsbSyscallDriver::spec_default_app(),
                ) == (App {
                    callback,
                    awaiting: spec_grant_value(
                        old(self).apps,
                        app_id,
                        UsbSyscallDriver::spec_default_app(),
                    ).awaiting,
                })
                &&& final(self).apps.slots@.len() == old(self).apps.slots@.len()
            },
    {
        if subscribe_num != 0 {
            return Err((callback, ErrorCode::NOSUPPORT));
        }
        match self.apps.enter_get(app_id, kernel, UsbSyscallDriver::default_app()) {
            Err(e) => Err((callback, e)),
            Ok(current) => {
                match self.apps.enter_put(
                    app_id,
                    kernel,
                    App { callback, awaiting: current.awaiting },
                ) {
                    Ok(()) => Ok(current.callback),
                    Err(e) => Err((callback, e)),
                }
            },
        }
    }

    /// Service a command.  Command 0 reports presence; command 1 records
    /// an enable-and-attach request -- each app may have only one request
    /// outstanding, a second one answers `BUSY` -- and runs the serving
    /// helper.
    #[verifier::rlimit(100)]
    pub fn command(
        &mut self,
        command_num: usize,
        _arg: usize,
        _arg1: usize,
        appid: ProcessId,
        kernel: &mut Kernel,
    ) -> (r: CommandReturn)
        requires
            old(kernel).wf(),
        ensures
            final(kernel).wf(),
            driver_step(*old(kernel), *final(kernel)),
            command_num == 0 ==> r == CommandReturn::Success && *final(self) == *old(self)
                && final(kernel).processes@ == old(kernel).processes@,
            command_num == 1 && !grant_access_ok(old(self).apps, *old(kernel), appid) ==> r
                == CommandReturn::Failure(ErrorCode::NOMEM) && *final(self) == *old(self) && final(kernel).processes@ == old(kernel).processes@,
            command_num == 1 && grant_access_ok(old(self).apps, *old(kernel), appid)
                && spec_grant_value(
                old(self).apps,
                appid,
                UsbSyscallDriver::spec_default_app(),
            ).awaiting is Some ==> r == CommandReturn::Failure(ErrorCode::BUSY) && *final(self)
                == *old(self) && final(kernel).processes@ == old(kernel).processes@,
            command_num == 1 && grant_access_ok(old(self).apps, *old(kernel), appid)
                && spec_grant_value(
                old(self).apps,
                appid,
                UsbSyscallDriver::spec_default_app(),
            ).awaiting is None ==> {
                let cb = spec_grant_value(
                    old(self).apps,
                    appid,
                    UsbSyscallDriver::spec_default_app(),
                ).callback;
                &&& r == CommandReturn::Success
                &&& final(self).serving_app == old(self).serving_app
                &&& final(self).apps.slots@.len() == old(self).apps.slots@.len()
                &&& (old(self).serving_app is Some ==> {
                    &&& final(self).usbc_client == old(self).usbc_client
                    &&& spec_grant_value(
                        final(self).apps,
                        appid,
                        UsbSyscallDriver::spec_default_app(),
                    ) == (App { callback: cb, awaiting: Some(Request::EnableAndAttach) })
                    &&& final(kernel).processes@ == old(kernel).processes@
                })
                &&& (old(self).serving_app is None ==> {
                    &&& final(self).usbc_client == (UsbController {
                        enabled: true,
                        attached: true,
                    })
                    &&& ((forall|t: int|
                        0 <= t < appid.index ==> !spec_waiting(
                            old(self).apps,
                            *old(kernel),
                            t,
                        )) ==> {
                        &&& spec_grant_value(
                            final(self).apps,
                            appid,
                            UsbSyscallDriver::spec_default_app(),
                        ) == (App { callback: cb, awaiting: None })
                        &&& crate::kernel::spec_upcall_scheduled(
                            *old(kernel),
                            *final(kernel),
                            cb,
                            0,
                            0,
                            0,
                        )
                    })
                    &&& ((exists|t: int|
                        0 <= t < appid.index && spec_waiting(old(self).apps, *old(kernel), t))
                        ==> spec_grant_value(
                        final(self).apps,
                        appid,
                        UsbSyscallDriver::spec_default_app(),
                    ) == (App { callback: cb, awaiting: Some(Request::EnableAndAttach) }))
                })
            },
            command_num > 1 ==> r == CommandReturn::Failure(ErrorCode::NOSUPPORT) && *final(self)
                == *old(self) && final(kernel).processes@ == old(kernel).processes@,
    {
        if command_num == 0 {
            // This driver is present.
            proof {
                crate::kernel::lemma_driver_step_refl(*kernel);
            }
            CommandReturn::success()
        } else if command_num == 1 {
            // Enable USB controller and attach to the bus.
            match self.apps.enter_get(appid, kernel, UsbSyscallDriver::default_app()) {
                Err(e) => {
                    proof {
                        crate::kernel::lemma_driver_step_refl(*kernel);
                    }
                    CommandReturn::failure(e)
                },
                Ok(current) => {
                    if current.awaiting.is_some() {
                        // Each app may make only one request at a time.
                        proof {
                            crate::kernel::lemma_driver_step_refl(*kernel);
                        }
                        CommandReturn::failure(ErrorCode::BUSY)
                    } else {
                        self.enable_and_attach(appid, current, kernel)
                    }
                },
            }
        } else {
            proof {
                crate::kernel::lemma_driver_step_refl(*kernel);
            }
            CommandReturn::failure(ErrorCode::NOSUPPORT)
        }
    }
}

} // verus!
