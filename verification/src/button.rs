//! Userspace control of the board's buttons.
//!
//! The capsule owns the GPIO pins that are wired to buttons and, per
//! process, an upcall plus a bit mask of the buttons that process wants
//! interrupts for.  Command 0 reports the button count, 1 enables and 2
//! disables a button's interrupt for the caller, 3 reads the state; all
//! commands above 0 answer `INVAL` for an out-of-range index.  Subscribe
//! slot 0 installs the pin-event upcall, which is delivered with the
//! button index and its activation state.

use vstd::prelude::*;
use crate::errorcode::ErrorCode;
use crate::grant::{grant_access_ok, spec_grant_value, Grant};
use crate::kernel::{driver_step, Kernel, TASK_QUEUE_SIZE};
use crate::process::{Process, ProcessId};
use crate::syscall::CommandReturn;
use crate::upcall::{FunctionCall, FunctionCallSource, Task, Upcall, UpcallId};

verus! {

/// Syscall driver number of the button capsule.
pub const DRIVER_NUM: usize = 3;

/// Buttons per process are tracked in one 32-bit mask, so a board
/// exposes at most this many buttons through the capsule.
pub const MAX_BUTTONS: usize = 32;

/// Whether a pressed button drives its pin high or low.
#[derive(Clone, Copy, Debug, PartialEq, Eq, Structural)]
pub enum ActivationMode {
    ActiveHigh,
    ActiveLow,
}

/// Logical state of a button, regardless of wiring.
#[derive(Clone, Copy, Debug, PartialEq, Eq, Structural)]
pub enum ActivationState {
    Inactive,
    Active,
}

/// Pull configuration of a floating input pin.
#[derive(Clone, Copy, Debug, PartialEq, Eq, Structural)]
pub enum FloatingState {
    PullUp,
    PullDown,
    PullNone,
}

/// A GPIO pin with interrupt support, as the capsule sees it.
#[derive(Clone, Copy, Debug, PartialEq, Eq, Structural)]
pub struct InterruptPin {
    /// Configured as an input.
    pub is_input: bool,
    /// Identifying value the capsule tagged the pin with (its index).
    pub value: u32,
    pub floating_state: FloatingState,
    /// Whether edge interrupts are enabled on the pin.
    pub interrupts_enabled: bool,
    /// Current electrical level of the pin.
    pub level_high: bool,
}

impl InterruptPin {
    /// A fresh pin at the given level, not yet configured.
    pub fn new(level_high: bool) -> (p: InterruptPin)
        ensures
            p == (InterruptPin {
                is_input: false,
                value: 0,
                floating_state: FloatingState::PullNone,
                interrupts_enabled: false,
                level_high,
            }),
    {
        InterruptPin {
            is_input: false,
            value: 0,
            floating_state: FloatingState::PullNone,
            interrupts_enabled: false,
            level_high,
        }
    }
}

/// One button: its pin, how it is wired, and its pull configuration.
#[derive(Clone, Copy, Debug, PartialEq, Eq, Structural)]
pub struct ButtonPin {
    pub pin: InterruptPin,
    pub activation_mode: ActivationMode,
    pub floating_state: FloatingState,
}

/// Per-process state: a bit array where bit `i` is set when the process
/// has an interrupt registered for button `i`.
pub type SubscribeMap = u32;

/// The grant entry of one process.
#[derive(Clone, Copy, Debug, PartialEq, Eq, Structural)]
pub struct ButtonApp {
    pub callback: Upcall,
    pub mask: SubscribeMap,
}

/// The logical state a level reads as under the given wiring.
pub open spec fn spec_read_activation(level_high: bool, mode: ActivationMode) -> ActivationState {
    if level_high == (mode == ActivationMode::ActiveHigh) {
        ActivationState::Active
    } else {
        ActivationState::Inactive
    }
}

/// Manages the buttons and which apps listen to which of them.
pub struct Button {
    pub pins: Vec<ButtonPin>,
    pub apps: Grant<ButtonApp>,
}

impl Button {
    /// The grant entry of a process that never subscribed: a null
    /// upcall and an empty mask.
    pub fn default_app() -> (r: ButtonApp)
        ensures
            r == Button::spec_default_app(),
    {
        ButtonApp {
            callback: Upcall {
                process_id: ProcessId { index: 0, id: 0 },
                upcall_id: UpcallId { driver_num: 0, subscribe_num: 0 },
                appdata: 0,
                fn_ptr: 0,
            },
            mask: 0,
        }
    }

    /// See [`Button::default_app`].
    pub open spec fn spec_default_app() -> ButtonApp {
        ButtonApp {
            callback: Upcall {
                process_id: ProcessId { index: 0, id: 0 },
                upcall_id: UpcallId { driver_num: 0, subscribe_num: 0 },
                appdata: 0,
                fn_ptr: 0,
            },
            mask: 0,
        }
    }

    /// Create the capsule: every pin is made an input, tagged with its
    /// index and given its configured pull state, with its interrupt
    /// disabled until a process asks for it.
    pub fn new(pins: Vec<ButtonPin>, grant: Grant<ButtonApp>) -> (b: Button)
        ensures
            b.pins@.len() == pins@.len(),
            forall|i: int|
                0 <= i < pins@.len() ==> #[trigger] b.pins@[i] == (ButtonPin {
                    pin: InterruptPin {
                        is_input: true,
                        value: i as u32,
                        floating_state: pins@[i].floating_state,
                        interrupts_enabled: false,
                        ..pins@[i].pin
                    },
                    ..pins@[i]
                }),
            b.apps == grant,
    {
        let mut pins = pins;
        let ghost pins0 = pins@;
        let n = pins.len();
        let mut i: usize = 0;
        while i < n
            invariant
                n == pins@.len(),
                i <= n,
                forall|j: int| i <= j < n ==> pins@[j] == pins0[j],
                forall|j: int|
                    0 <= j < i ==> #[trigger] pins@[j] == (ButtonPin {
                        pin: InterruptPin {
                            is_input: true,
                            value: j as u32,
                            floating_state: pins0[j].floating_state,
                            interrupts_enabled: false,
                            ..pins0[j].pin
                        },
                        ..pins0[j]
                    }),
            decreases n - i,
        {
            let entry = pins[i];
            let configured = ButtonPin {
                pin: InterruptPin {
                    is_input: true,
                    value: #[verifier::truncate] (i as u32),
                    floating_state: entry.floating_state,
                    interrupts_enabled: false,
                    ..entry.pin
                },
                ..entry
            };
            pins.set(i, configured);
            i = i + 1;
        }
        Button { pins, apps: grant }
    }

    /// Read the logical state of button `pin_num`.
    pub fn get_button_state(&self, pin_num: u32) -> (r: ActivationState)
        requires
            (pin_num as int) < self.pins@.len(),
        ensures
            r == spec_read_activation(
                self.pins@[pin_num as int].pin.level_high,
                self.pins@[pin_num as int].activation_mode,
            ),
    {
        let entry = &self.pins[pin_num as usize];
        let active_high = entry.activation_mode == ActivationMode::ActiveHigh;
        if entry.pin.level_high == active_high {
            ActivationState::Active
        } else {
            ActivationState::Inactive
        }
    }

    /// Install `callback` as the caller's button upcall and return the
    /// previously installed one (a null upcall the first time).  Any
    /// subscribe number other than 0, or a vanished process, rejects the
    /// call with the new callback echoed back.
    pub fn subscribe(
        &mut self,
        subscribe_num: usize,
        callback: Upcall,
        app_id: ProcessId,
        kernel: &Kernel,
    ) -> (r: Result<Upcall, (Upcall, ErrorCode)>)
        ensures
            final(self).pins@ == old(self).pins@,
            subscribe_num != 0 ==> r == Err::<Upcall, (Upcall, ErrorCode)>(
                (callback, ErrorCode::NOSUPPORT),
            ) && *final(self) == *old(self),
            subscribe_num == 0 && !grant_access_ok(old(self).apps, *kernel, app_id) ==> r == Err::<
                Upcall,
                (Upcall, ErrorCode),
            >((callback, ErrorCode::NOMEM)) && *final(self) == *old(self),
            subscribe_num == 0 && grant_access_ok(old(self).apps, *kernel, app_id) ==> {
                &&& r == Ok::<Upcall, (Upcall, ErrorCode)>(
                    spec_grant_value(old(self).apps, app_id, Button::spec_default_app()).callback,
                )
                &&& spec_grant_value(final(self).apps, app_id, Button::spec_default_app())
                    == (ButtonApp {
                    callback,
                    mask: spec_grant_value(
                        old(self).apps,
                        app_id,
                        Button::spec_default_app(),
                    ).mask,
                })
                &&& final(self).apps.slots@.len() == old(self).apps.slots@.len()
            },
    {
        if subscribe_num != 0 {
            return Err((callback, ErrorCode::NOSUPPORT));
        }
        match self.apps.enter_get(app_id, kernel, Button::default_app()) {
            Err(e) => Err((callback, e)),
            Ok(current) => {
                match self.apps.enter_put(
                    app_id,
                    kernel,
                    ButtonApp { callback, mask: current.mask },
                ) {
                    Ok(()) => Ok(current.callback),
                    Err(e) => Err((callback, e)),
                }
            },
        }
    }
}

/// Process `j` has the interrupt bit for button `data` set.
pub open spec fn spec_interested(g: Grant<ButtonApp>, k: Kernel, j: int, data: usize) -> bool {
    &&& k.live_at(j)
    &&& k.proc_at(j).spec_active()
    &&& j < g.slots@.len()
    &&& spec_grant_value(g, k.proc_at(j).spec_processid(), Button::spec_default_app()).mask & (
    1u32 << (data as u32)) != 0
}

/// Some process still has the interrupt bit for button `data` set.
pub open spec fn spec_any_interested(g: Grant<ButtonApp>, k: Kernel, data: usize) -> bool {
    exists|j: int| spec_interested(g, k, j, data)
}

/// The upcall task a button event queues on an interested process.
pub open spec fn spec_button_task(cb: Upcall, pin_num: u32, state_word: usize) -> Task {
    Task::FunctionCall(
        FunctionCall {
            source: FunctionCallSource::Driver(cb.upcall_id),
            pc: cb.fn_ptr,
            argument0: pin_num as usize,
            argument1: state_word,
            argument2: 0,
            argument3: cb.appdata,
        },
    )
}

/// What a button event does to the process in slot `j`: an interested
/// process with a deliverable callback gets the upcall task appended,
/// everyone else is untouched.
pub open spec fn fired_slot_effect(
    pre: Kernel,
    post: Kernel,
    j: int,
    g: Grant<ButtonApp>,
    pin_num: u32,
    state_word: usize,
) -> bool {
    let cb = spec_grant_value(g, pre.proc_at(j).spec_processid(), Button::spec_default_app()).callback;
    if spec_interested(g, pre, j, pin_num as usize) && cb.fn_ptr != 0 && pre.proc_at(
        j,
    ).spec_active() && pre.proc_at(j).tasks@.len() < TASK_QUEUE_SIZE {
        &&& post.processes@[j] == Some(
            Process {
                tasks: post.proc_at(j).tasks,
                ..pre.proc_at(j)
            },
        )
        &&& post.proc_at(j).tasks@ == pre.proc_at(j).tasks@.push(
            spec_button_task(cb, pin_num, state_word),
        )
    } else {
        post.processes@[j] == pre.processes@[j]
    }
}

impl Button {
    /// Configure interrupts and read state for buttons.  `data` is the
    /// button index; commands above 0 answer `INVAL` for an index out of
    /// range (or beyond the 32 bits the subscribe map can track).
    pub fn command(
        &mut self,
        command_num: usize,
        data: usize,
        _arg1: usize,
        appid: ProcessId,
        kernel: &Kernel,
    ) -> (r: CommandReturn)
        requires
            kernel.wf(),
        ensures
            final(self).apps.slots@.len() == old(self).apps.slots@.len(),
            command_num == 0 ==> r == CommandReturn::SuccessU32(old(self).pins@.len() as u32)
                && *final(self) == *old(self),
            command_num == 1 && !(data < old(self).pins@.len() && data < MAX_BUTTONS) ==> r
                == CommandReturn::Failure(ErrorCode::INVAL) && *final(self) == *old(self),
            command_num == 1 && data < old(self).pins@.len() && data < MAX_BUTTONS
                && !grant_access_ok(old(self).apps, *kernel, appid) ==> r == CommandReturn::Failure(
                ErrorCode::NOMEM,
            ) && *final(self) == *old(self),
            command_num == 1 && data < old(self).pins@.len() && data < MAX_BUTTONS
                && grant_access_ok(old(self).apps, *kernel, appid) ==> {
                &&& r == CommandReturn::Success
                &&& spec_grant_value(final(self).apps, appid, Button::spec_default_app())
                    == (ButtonApp {
                    callback: spec_grant_value(
                        old(self).apps,
                        appid,
                        Button::spec_default_app(),
                    ).callback,
                    mask: spec_grant_value(old(self).apps, appid, Button::spec_default_app()).mask
                        | (1u32 << (data as u32)),
                })
                &&& final(self).pins@ == old(self).pins@.update(
                    data as int,
                    ButtonPin {
                        pin: InterruptPin {
                            interrupts_enabled: true,
                            ..old(self).pins@[data as int].pin
                        },
                        ..old(self).pins@[data as int]
                    },
                )
            },
            command_num == 2 && !(data < old(self).pins@.len() && data < MAX_BUTTONS) ==> r
                == CommandReturn::Failure(ErrorCode::INVAL) && *final(self) == *old(self),
            command_num == 2 && data < old(self).pins@.len() && data < MAX_BUTTONS ==> {
                &&& (grant_access_ok(old(self).apps, *kernel, appid) ==> {
                    &&& r == CommandReturn::Success
                    &&& spec_grant_value(final(self).apps, appid, Button::spec_default_app())
                        == (ButtonApp {
                        callback: spec_grant_value(
                            old(self).apps,
                            appid,
                            Button::spec_default_app(),
                        ).callback,
                        mask: spec_grant_value(
                            old(self).apps,
                            appid,
                            Button::spec_default_app(),
                        ).mask & !(1u32 << (data as u32)),
                    })
                })
                &&& (!grant_access_ok(old(self).apps, *kernel, appid) ==> r
                    == CommandReturn::Failure(ErrorCode::NOMEM) && final(self).apps == old(self).apps)
                &&& (spec_any_interested(final(self).apps, *kernel, data) ==> final(self).pins@
                    == old(self).pins@)
                &&& (!spec_any_interested(final(self).apps, *kernel, data) ==> final(self).pins@
                    == old(self).pins@.update(
                    data as int,
                    ButtonPin {
                        pin: InterruptPin {
                            interrupts_enabled: false,
                            ..old(self).pins@[data as int].pin
                        },
                        ..old(self).pins@[data as int]
                    },
                ))
            },
            command_num == 3 && data >= old(self).pins@.len() ==> r == CommandReturn::Failure(
                ErrorCode::INVAL,
            ) && *final(self) == *old(self),
            command_num == 3 && data < old(self).pins@.len() ==> r == CommandReturn::SuccessU32(
                if spec_read_activation(
                    old(self).pins@[data as int].pin.level_high,
                    old(self).pins@[data as int].activation_mode,
                ) == ActivationState::Active {
                    1
                } else {
                    0
                },
            ) && *final(self) == *old(self),
            command_num > 3 ==> r == CommandReturn::Failure(ErrorCode::NOSUPPORT) && *final(self)
                == *old(self),
    {
        if command_num == 0 {
            // Driver check: the number of buttons on the board.
            return CommandReturn::success_u32(#[verifier::truncate] (self.pins.len() as u32));
        }
        if command_num == 1 {
            // Enable interrupts for a button.
            if data < self.pins.len() && data < MAX_BUTTONS {
                match self.apps.enter_get(appid, kernel, Button::default_app()) {
                    Err(e) => CommandReturn::failure(e),
                    Ok(current) => {
                        let updated = ButtonApp {
                            callback: current.callback,
                            mask: current.mask | (1u32 << (data as u32)),
                        };
                        match self.apps.enter_put(appid, kernel, updated) {
                            Err(e) => CommandReturn::failure(e),
                            Ok(()) => {
                                let entry = self.pins[data];
                                self.pins.set(
                                    data,
                                    ButtonPin {
                                        pin: InterruptPin {
                                            interrupts_enabled: true,
                                            ..entry.pin
                                        },
                                        ..entry
                                    },
                                );
                                CommandReturn::success()
                            },
                        }
                    },
                }
            } else {
                // Impossible button.
                CommandReturn::failure(ErrorCode::INVAL)
            }
        } else if command_num == 2 {
            // Disable interrupts for a button.
            if !(data < self.pins.len() && data < MAX_BUTTONS) {
                // Impossible button.
                CommandReturn::failure(ErrorCode::INVAL)
            } else {
                let res = match self.apps.enter_get(appid, kernel, Button::default_app()) {
                    Err(e) => CommandReturn::failure(e),
                    Ok(current) => {
                        let updated = ButtonApp {
                            callback: current.callback,
                            mask: current.mask & !(1u32 << (data as u32)),
                        };
                        match self.apps.enter_put(appid, kernel, updated) {
                            Err(e) => CommandReturn::failure(e),
                            Ok(()) => CommandReturn::success(),
                        }
                    },
                };
                // Is any process still waiting for this button?  If
                // not, disable the underlying interrupt.
                if !self.any_app_interested(data, kernel) {
                    let entry = self.pins[data];
                    self.pins.set(
                        data,
                        ButtonPin {
                            pin: InterruptPin { interrupts_enabled: false, ..entry.pin },
                            ..entry
                        },
                    );
                }
                res
            }
        } else if command_num == 3 {
            // Read the current state of the button.
            if data >= self.pins.len() {
                // Impossible button.
                CommandReturn::failure(ErrorCode::INVAL)
            } else {
                let entry = &self.pins[data];
                let active_high = entry.activation_mode == ActivationMode::ActiveHigh;
                CommandReturn::success_u32(
                    if entry.pin.level_high == active_high {
                        1
                    } else {
                        0
                    },
                )
            }
        } else {
            CommandReturn::failure(ErrorCode::NOSUPPORT)
        }
    }

    /// Sweep all live processes' grant entries for one with the
    /// interrupt bit for button `data` set.
    fn any_app_interested(&self, data: usize, kernel: &Kernel) -> (r: bool)
        requires
            kernel.wf(),
            data < MAX_BUTTONS,
        ensures
            r == spec_any_interested(self.apps, *kernel, data),
    {
        let n = self.apps.num_slots();
        let mut j: usize = 0;
        while j < n
            invariant
                kernel.wf(),
                data < MAX_BUTTONS,
                n == self.apps.slots@.len(),
                j <= n,
                forall|t: int| 0 <= t < j ==> !spec_interested(self.apps, *kernel, t, data),
            decreases n - j,
        {
            match self.apps.entry_at(j, kernel, Button::default_app()) {
                Some((_pid, app)) => {
                    if app.mask & (1u32 << (data as u32)) != 0 {
                        proof {
                            assert(spec_interested(self.apps, *kernel, j as int, data));
                        }
                        return true;
                    }
                },
                None => {},
            }
            j = j + 1;
        }
        proof {
            assert forall|t: int| !spec_interested(self.apps, *kernel, t, data) by {
                if 0 <= t < n {
                } else {
                }
            }
        }
        false
    }

    /// A pin interrupt fired: deliver the `(button index, state)` upcall
    /// to every process with the bit set; if none is interested any more
    /// (e.g. the subscribers died), lazily disable the pin's interrupt.
    ///
    /// Each stored callback must belong to the process whose grant entry
    /// holds it.  Subscribe establishes this (it stores the caller's own
    /// upcall), so a board that wires this capsule as the pins' interrupt
    /// client meets the precondition without further work.
    pub fn fired(&mut self, pin_num: u32, kernel: &mut Kernel)
        requires
            old(kernel).wf(),
            (pin_num as int) < old(self).pins@.len(),
            (pin_num as int) < MAX_BUTTONS as int,
            forall|j: int|
                0 <= j < old(self).apps.slots@.len() && old(kernel).live_at(j) ==> {
                    let cb = spec_grant_value(
                        old(self).apps,
                        old(kernel).proc_at(j).spec_processid(),
                        Button::spec_default_app(),
                    ).callback;
                    cb.fn_ptr != 0 ==> cb.process_id == old(kernel).proc_at(
                        j,
                    ).spec_processid()
                },
        ensures
            final(kernel).wf(),
            driver_step(*old(kernel), *final(kernel)),
            final(self).apps == old(self).apps,
            forall|j: int|
                #![trigger old(kernel).processes@[j]]
                0 <= j < old(kernel).processes@.len() ==> fired_slot_effect(
                    *old(kernel),
                    *final(kernel),
                    j,
                    old(self).apps,
                    pin_num,
                    if spec_read_activation(
                        old(self).pins@[pin_num as int].pin.level_high,
                        old(self).pins@[pin_num as int].activation_mode,
                    ) == ActivationState::Active {
                        1
                    } else {
                        0
                    },
                ),
            spec_any_interested(old(self).apps, *old(kernel), pin_num as usize) ==> final(self).pins@ == old(self).pins@,
            !spec_any_interested(old(self).apps, *old(kernel), pin_num as usize) ==> final(self).pins@ == old(self).pins@.update(
                pin_num as int,
                ButtonPin {
                    pin: InterruptPin {
                        interrupts_enabled: false,
                        ..old(self).pins@[pin_num as int].pin
                    },
                    ..old(self).pins@[pin_num as int]
                },
            ),
    {
        let button_state = self.get_button_state(pin_num);
        let state_word: usize = if button_state == ActivationState::Active {
            1
        } else {
            0
        };
        let ghost k0 = *kernel;
        let n = self.apps.num_slots();
        let mut interrupt_count: usize = 0;
        let mut j: usize = 0;
        while j < n
            invariant
                kernel.wf(),
                k0.wf(),
                (pin_num as int) < MAX_BUTTONS as int,
                n == self.apps.slots@.len(),
                j <= n,
                self.pins@ == old(self).pins@,
                self.apps == old(self).apps,
                (pin_num as int) < self.pins@.len(),
                kernel.processes@.len() == k0.processes@.len(),
                crate::kernel::counters_unchanged(k0, *kernel),
                interrupt_count <= j,
                (interrupt_count > 0) == (exists|t: int|
                    0 <= t < j && #[trigger] spec_interested(self.apps, k0, t, pin_num as usize)),
                forall|t: int|
                    0 <= t < k0.processes@.len() && t >= j ==> kernel.processes@[t]
                        == k0.processes@[t],
                forall|t: int|
                    #![trigger k0.processes@[t]]
                    0 <= t < j && t < k0.processes@.len() ==> fired_slot_effect(
                        k0,
                        *kernel,
                        t,
                        self.apps,
                        pin_num,
                        state_word,
                    ),
                forall|j2: int|
                    0 <= j2 < self.apps.slots@.len() && k0.live_at(j2) ==> {
                        let cb = spec_grant_value(
                            self.apps,
                            k0.proc_at(j2).spec_processid(),
                            Button::spec_default_app(),
                        ).callback;
                        cb.fn_ptr != 0 ==> cb.process_id == k0.proc_at(j2).spec_processid()
                    },
            decreases n - j,
        {
            let ghost k_before = *kernel;
            proof {
                if (j as int) < k0.processes@.len() {
                    assert(kernel.processes@[j as int] == k0.processes@[j as int]);
                    assert(crate::kernel::slot_inv(k0.processes@[j as int], j as int));
                }
            }
            match self.apps.entry_at(j, kernel, Button::default_app()) {
                Some((_pid, app)) => {
                    if app.mask & (1u32 << pin_num) != 0 {
                        proof {
                            assert(spec_interested(self.apps, k0, j as int, pin_num as usize));
                        }
                        interrupt_count = interrupt_count + 1;
                        let _ = kernel.schedule_upcall(
                            app.callback,
                            pin_num as usize,
                            state_word,
                            0,
                        );
                        proof {
                            let cb = spec_grant_value(
                                self.apps,
                                k0.proc_at(j as int).spec_processid(),
                                Button::spec_default_app(),
                            ).callback;
                            assert(app.callback == cb);
                            if cb.fn_ptr != 0 {
                                assert(cb.process_id == k0.proc_at(j as int).spec_processid());
                                assert(cb.process_id.index == j);
                                assert(crate::kernel::pid_valid(k_before, cb.process_id));
                            }
                            assert(fired_slot_effect(
                                k0,
                                *kernel,
                                j as int,
                                self.apps,
                                pin_num,
                                state_word,
                            ));
                        }
                    } else {
                        proof {
                            assert(!spec_interested(self.apps, k0, j as int, pin_num as usize));
                        }
                    }
                },
                None => {
                    proof {
                        assert(!spec_interested(self.apps, k0, j as int, pin_num as usize));
                    }
                },
            }
            proof {
                assert forall|t: int|
                    0 <= t < j + 1 && t < k0.processes@.len() implies fired_slot_effect(
                    k0,
                    *kernel,
                    t,
                    self.apps,
                    pin_num,
                    state_word,
                ) by {
                    if t < j {
                        assert(fired_slot_effect(k0, k_before, t, self.apps, pin_num, state_word));
                    } else {
                        assert(k_before.processes@[t] == k0.processes@[t]);
                    }
                }
            }
            j = j + 1;
        }
        // It is possible the interrupt was for a process that has since
        // died without unregistering: lazily disable the pin if nobody
        // is interested any more.
        if interrupt_count == 0 {
            let entry = self.pins[pin_num as usize];
            self.pins.set(
                pin_num as usize,
                ButtonPin {
                    pin: InterruptPin { interrupts_enabled: false, ..entry.pin },
                    ..entry
                },
            );
        }
        proof {
            crate::kernel::lemma_driver_step_refl(k0);
            assert forall|t: int| 0 <= t < k0.processes@.len() implies crate::kernel::slot_driver_step(
                #[trigger] k0.processes@[t],
                kernel.processes@[t],
            ) by {
                assert(fired_slot_effect(k0, *kernel, t, self.apps, pin_num, state_word));
                crate::kernel::lemma_slot_driver_step_refl(k0.processes@[t]);
                match (k0.processes@[t], kernel.processes@[t]) {
                    (Some(p), Some(q)) => {
                        if q.tasks@ == p.tasks@.push(
                            spec_button_task(
                                spec_grant_value(
                                    self.apps,
                                    k0.proc_at(t).spec_processid(),
                                    Button::spec_default_app(),
                                ).callback,
                                pin_num,
                                state_word,
                            ),
                        ) {
                            assert(p.tasks@ =~= q.tasks@.take(p.tasks@.len() as int));
                        }
                    },
                    _ => {},
                }
            }
        }
    }
}

/// A successful subscribe: the previously installed callback is
/// returned, the new one is stored, the mask is kept.
pub open spec fn subscribe_swaps(
    pre: Button,
    post: Button,
    kernel: Kernel,
    app_id: ProcessId,
    callback: Upcall,
    r: Result<Upcall, (Upcall, ErrorCode)>,
) -> bool {
    &&& grant_access_ok(pre.apps, kernel, app_id)
    &&& r == Ok::<Upcall, (Upcall, ErrorCode)>(
        spec_grant_value(pre.apps, app_id, Button::spec_default_app()).callback,
    )
    &&& spec_grant_value(post.apps, app_id, Button::spec_default_app()) == (ButtonApp {
        callback,
        mask: spec_grant_value(pre.apps, app_id, Button::spec_default_app()).mask,
    })
}

/// Subscribing twice hands the first callback's payload back on the
/// second call: what `subscribe(x)` stored is exactly what the following
/// `subscribe(y)` returns.
pub proof fn lemma_subscribe_round_trip(
    b0: Button,
    b1: Button,
    b2: Button,
    kernel: Kernel,
    app_id: ProcessId,
    x: Upcall,
    y: Upcall,
    r1: Result<Upcall, (Upcall, ErrorCode)>,
    r2: Result<Upcall, (Upcall, ErrorCode)>,
)
    requires
        subscribe_swaps(b0, b1, kernel, app_id, x, r1),
        subscribe_swaps(b1, b2, kernel, app_id, y, r2),
    ensures
        r2 == Ok::<Upcall, (Upcall, ErrorCode)>(x),
{
}

/// A successful enable command (command 1): the caller's mask gains the
/// button's bit and the callback is kept.
pub open spec fn command_enables(
    pre: Button,
    post: Button,
    kernel: Kernel,
    appid: ProcessId,
    data: usize,
) -> bool {
    &&& grant_access_ok(pre.apps, kernel, appid)
    &&& spec_grant_value(post.apps, appid, Button::spec_default_app()) == (ButtonApp {
        callback: spec_grant_value(pre.apps, appid, Button::spec_default_app()).callback,
        mask: spec_grant_value(pre.apps, appid, Button::spec_default_app()).mask | (1u32 << (
        data as u32)),
    })
}

/// A successful disable command (command 2): the caller's mask loses the
/// button's bit and the callback is kept.
pub open spec fn command_disables(
    pre: Button,
    post: Button,
    kernel: Kernel,
    appid: ProcessId,
    data: usize,
) -> bool {
    &&& grant_access_ok(pre.apps, kernel, appid)
    &&& spec_grant_value(post.apps, appid, Button::spec_default_app()) == (ButtonApp {
        callback: spec_grant_value(pre.apps, appid, Button::spec_default_app()).callback,
        mask: spec_grant_value(pre.apps, appid, Button::spec_default_app()).mask & !(1u32 << (
        data as u32)),
    })
}

/// Enabling a button's interrupt and then disabling it leaves the
/// caller's subscribe-map bit as it started, provided it started clear
/// (a bit that was already set is simply cleared by the disable, so that
/// input is left out).
pub proof fn lemma_enable_disable_round_trip(
    b0: Button,
    b1: Button,
    b2: Button,
    kernel: Kernel,
    appid: ProcessId,
    data: usize,
)
    requires
        data < MAX_BUTTONS,
        spec_grant_value(b0.apps, appid, Button::spec_default_app()).mask & (1u32 << (
        data as u32)) == 0,
        command_enables(b0, b1, kernel, appid, data),
        command_disables(b1, b2, kernel, appid, data),
    ensures
        spec_grant_value(b2.apps, appid, Button::spec_default_app()).mask == spec_grant_value(
            b0.apps,
            appid,
            Button::spec_default_app(),
        ).mask,
        spec_grant_value(b2.apps, appid, Button::spec_default_app()).callback
            == spec_grant_value(b0.apps, appid, Button::spec_default_app()).callback,
{
    let mask = spec_grant_value(b0.apps, appid, Button::spec_default_app()).mask;
    let i = data as u32;
    lemma_button_mask_round_trip(mask, i);
}

/// Masks round-trip: enabling a button's bit and then disabling it
/// restores the mask, provided the bit was clear to begin with (a bit
/// that was already set is simply cleared by the disable).
pub proof fn lemma_button_mask_round_trip(mask: u32, i: u32)
    requires
        i < 32,
        mask & (1u32 << i) == 0,
    ensures
        (mask | (1u32 << i)) & !(1u32 << i) == mask,
{
    assert((mask & (1u32 << i) == 0 && i < 32) ==> ((mask | (1u32 << i)) & !(1u32 << i)
        == mask)) by (bit_vector);
}

} // verus!
