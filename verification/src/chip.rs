//! Board-neutral model of the chip facade: pending interrupts, deferred
//! calls, the memory-protection unit, the watchdog, the scheduler timer
//! and the sleep instruction.
//!
//! The kernel core treats concrete hardware as an external collaborator;
//! this module captures exactly the state the core's contracts depend on.
//! Interrupt arrival is modelled explicitly: `pending_interrupts` counts
//! sources already visible to the kernel, while `arriving_interrupts`
//! counts interrupts that land between the scheduler's decision to sleep
//! and the start of the atomic sleep section -- they become pending when
//! the atomic section begins, which is what closes the wake race.

use vstd::prelude::*;

verus! {

/// The memory-protection unit. Every enable must be paired with a
/// disable before control leaves the kernel loop iteration.
#[derive(Clone, Copy, Debug, PartialEq, Eq, Structural)]
pub struct Mpu {
    /// Whether userspace protection regions are currently active.
    pub enabled: bool,
    /// How many times the MPU was enabled (wrapping count).
    pub enable_count: u64,
    /// How many times the MPU was disabled (wrapping count).
    pub disable_count: u64,
}

/// The board watchdog. The kernel tickles it once per loop iteration and
/// suspends it across the sleep instruction.
#[derive(Clone, Copy, Debug, PartialEq, Eq, Structural)]
pub struct WatchDog {
    pub setup_count: u64,
    pub tickle_count: u64,
    pub suspended: bool,
}

/// One-shot preemption timer. `expired` records that the armed timeslice
/// ran out; once expired the remaining-time query reports `None`.
#[derive(Clone, Copy, Debug, PartialEq, Eq, Structural)]
pub struct SchedulerTimer {
    /// Microseconds left of the started timeslice.
    pub remaining: u32,
    /// Set when the started timeslice was consumed completely.
    pub expired: bool,
    /// Whether the expiry interrupt is armed.
    pub armed: bool,
}

/// The chip model the kernel loop runs against.
#[derive(Clone, Copy, Debug, PartialEq, Eq, Structural)]
pub struct Chip {
    /// Interrupt sources pending service.
    pub pending_interrupts: u64,
    /// Interrupts that arrive between the sleep decision and the atomic
    /// section; promoted to pending when the atomic section begins.
    pub arriving_interrupts: u64,
    /// Deferred calls waiting for a safe point in kernel context.
    pub deferred_calls: u64,
    /// Interrupt sources serviced so far (wrapping count).
    pub serviced_interrupts: u64,
    /// Deferred calls serviced so far (wrapping count).
    pub serviced_deferred_calls: u64,
    /// How many times the sleep instruction was executed (wrapping count).
    pub sleep_count: u64,
    pub mpu: Mpu,
    pub watchdog: WatchDog,
    pub timer: SchedulerTimer,
}

impl Chip {
    /// A quiescent chip: nothing pending, MPU off, watchdog idle.
    pub fn new() -> (c: Chip)
        ensures
            c == Chip::initial(),
    {
        Chip {
            pending_interrupts: 0,
            arriving_interrupts: 0,
            deferred_calls: 0,
            serviced_interrupts: 0,
            serviced_deferred_calls: 0,
            sleep_count: 0,
            mpu: Mpu { enabled: false, enable_count: 0, disable_count: 0 },
            watchdog: WatchDog { setup_count: 0, tickle_count: 0, suspended: false },
            timer: SchedulerTimer { remaining: 0, expired: false, armed: false },
        }
    }

    /// The state `Chip::new` produces.
    pub open spec fn initial() -> Chip {
        Chip {
            pending_interrupts: 0,
            arriving_interrupts: 0,
            deferred_calls: 0,
            serviced_interrupts: 0,
            serviced_deferred_calls: 0,
            sleep_count: 0,
            mpu: Mpu { enabled: false, enable_count: 0, disable_count: 0 },
            watchdog: WatchDog { setup_count: 0, tickle_count: 0, suspended: false },
            timer: SchedulerTimer { remaining: 0, expired: false, armed: false },
        }
    }

    /// Mark one more interrupt source pending (an ISR ran).
    pub fn raise_interrupt(&mut self)
        ensures
            *final(self) == (Chip {
                pending_interrupts: old(self).pending_interrupts.saturating_add(1),
                ..*old(self)
            }),
    {
        self.pending_interrupts = self.pending_interrupts.saturating_add(1);
    }

    /// Record an interrupt that lands in the window between the sleep
    /// decision and the atomic sleep section.
    pub fn raise_late_interrupt(&mut self)
        ensures
            *final(self) == (Chip {
                arriving_interrupts: old(self).arriving_interrupts.saturating_add(1),
                ..*old(self)
            }),
    {
        self.arriving_interrupts = self.arriving_interrupts.saturating_add(1);
    }

    /// Queue one deferred call.
    pub fn schedule_deferred_call(&mut self)
        ensures
            *final(self) == (Chip {
                deferred_calls: old(self).deferred_calls.saturating_add(1),
                ..*old(self)
            }),
    {
        self.deferred_calls = self.deferred_calls.saturating_add(1);
    }

    /// Whether any interrupt source awaits its bottom half.
    pub fn has_pending_interrupts(&self) -> (r: bool)
        ensures
            r == (self.pending_interrupts > 0),
    {
        self.pending_interrupts > 0
    }

    /// Whether any deferred call awaits service.
    pub fn has_deferred_calls(&self) -> (r: bool)
        ensures
            r == (self.deferred_calls > 0),
    {
        self.deferred_calls > 0
    }

    /// Run the bottom halves of all pending interrupt sources.
    pub fn service_pending_interrupts(&mut self)
        ensures
            *final(self) == (Chip {
                pending_interrupts: 0,
                serviced_interrupts: old(self).serviced_interrupts.wrapping_add(old(self).pending_interrupts),
                ..*old(self)
            }),
    {
        self.serviced_interrupts = self.serviced_interrupts.wrapping_add(self.pending_interrupts);
        self.pending_interrupts = 0;
    }

    /// Run one queued deferred call.
    pub fn service_deferred_call(&mut self)
        requires
            old(self).deferred_calls > 0,
        ensures
            *final(self) == (Chip {
                deferred_calls: ((old(self).deferred_calls - 1) as u64),
                serviced_deferred_calls: old(self).serviced_deferred_calls.wrapping_add(1),
                ..*old(self)
            }),
    {
        self.deferred_calls = self.deferred_calls - 1;
        self.serviced_deferred_calls = self.serviced_deferred_calls.wrapping_add(1);
    }

    /// Configure and enable userspace memory protection.
    pub fn enable_app_mpu(&mut self)
        ensures
            *final(self) == (Chip {
                mpu: Mpu {
                    enabled: true,
                    enable_count: old(self).mpu.enable_count.wrapping_add(1),
                    disable_count: old(self).mpu.disable_count,
                },
                ..*old(self)
            }),
    {
        self.mpu.enabled = true;
        self.mpu.enable_count = self.mpu.enable_count.wrapping_add(1);
    }

    /// Disable userspace memory protection.
    pub fn disable_app_mpu(&mut self)
        ensures
            *final(self) == (Chip {
                mpu: Mpu {
                    enabled: false,
                    enable_count: old(self).mpu.enable_count,
                    disable_count: old(self).mpu.disable_count.wrapping_add(1),
                },
                ..*old(self)
            }),
    {
        self.mpu.enabled = false;
        self.mpu.disable_count = self.mpu.disable_count.wrapping_add(1);
    }

    /// Initialise the watchdog at boot.
    pub fn watchdog_setup(&mut self)
        ensures
            *final(self) == (Chip {
                watchdog: WatchDog {
                    setup_count: old(self).watchdog.setup_count.wrapping_add(1),
                    ..old(self).watchdog
                },
                ..*old(self)
            }),
    {
        self.watchdog.setup_count = self.watchdog.setup_count.wrapping_add(1);
    }

    /// Tickle the watchdog once per kernel loop iteration.
    pub fn watchdog_tickle(&mut self)
        ensures
            *final(self) == (Chip {
                watchdog: WatchDog {
                    tickle_count: old(self).watchdog.tickle_count.wrapping_add(1),
                    ..old(self).watchdog
                },
                ..*old(self)
            }),
    {
        self.watchdog.tickle_count = self.watchdog.tickle_count.wrapping_add(1);
    }

    /// The sleep path's atomic section: promote interrupts that arrived
    /// after the scheduler's decision, re-check for work, and only sleep
    /// when the chip is truly idle (watchdog suspended across the sleep
    /// instruction).  Returns whether the chip slept.
    pub fn sleep_if_idle(&mut self) -> (slept: bool)
        ensures
            slept == (old(self).pending_interrupts == 0 && old(self).arriving_interrupts == 0
                && old(self).deferred_calls == 0),
            *final(self) == (Chip {
                pending_interrupts: old(self).pending_interrupts.saturating_add(
                    old(self).arriving_interrupts,
                ),
                arriving_interrupts: 0,
                sleep_count: if slept {
                    old(self).sleep_count.wrapping_add(1)
                } else {
                    old(self).sleep_count
                },
                watchdog: WatchDog {
                    suspended: if slept {
                        false
                    } else {
                        old(self).watchdog.suspended
                    },
                    ..old(self).watchdog
                },
                ..*old(self)
            }),
    {
        // Interrupts are masked from here: late arrivals become visible
        // before the idleness re-check.
        self.pending_interrupts = self.pending_interrupts.saturating_add(self.arriving_interrupts);
        self.arriving_interrupts = 0;
        if self.pending_interrupts == 0 && self.deferred_calls == 0 {
            self.watchdog.suspended = true;
            self.sleep_count = self.sleep_count.wrapping_add(1);
            self.watchdog.suspended = false;
            true
        } else {
            false
        }
    }

    /// Stop the scheduler timer and clear any recorded expiry.  When the
    /// process runs cooperatively (`real_timer` false) a null timer stands in
    /// for the chip timer and the chip timer is untouched.
    pub fn timer_reset(&mut self, real_timer: bool)
        ensures
            real_timer ==> *final(self) == (Chip {
                timer: SchedulerTimer { remaining: 0, expired: false, armed: false },
                ..*old(self)
            }),
            !real_timer ==> *final(self) == *old(self),
    {
        if real_timer {
            self.timer = SchedulerTimer { remaining: 0, expired: false, armed: false };
        }
    }

    /// Start counting down a fresh timeslice.
    pub fn timer_start(&mut self, real_timer: bool, timeslice_us: u32)
        ensures
            real_timer ==> *final(self) == (Chip {
                timer: SchedulerTimer { remaining: timeslice_us, expired: false, armed: false },
                ..*old(self)
            }),
            !real_timer ==> *final(self) == *old(self),
    {
        if real_timer {
            self.timer = SchedulerTimer { remaining: timeslice_us, expired: false, armed: false };
        }
    }

    /// Arm the expiry interrupt before switching to the process.
    pub fn timer_arm(&mut self, real_timer: bool)
        ensures
            real_timer ==> *final(self) == (Chip {
                timer: SchedulerTimer { armed: true, ..old(self).timer },
                ..*old(self)
            }),
            !real_timer ==> *final(self) == *old(self),
    {
        if real_timer {
            self.timer.armed = true;
        }
    }

    /// Disarm the expiry interrupt after the process returned.
    pub fn timer_disarm(&mut self, real_timer: bool)
        ensures
            real_timer ==> *final(self) == (Chip {
                timer: SchedulerTimer { armed: false, ..old(self).timer },
                ..*old(self)
            }),
            !real_timer ==> *final(self) == *old(self),
    {
        if real_timer {
            self.timer.armed = false;
        }
    }

    /// Remaining microseconds of the started timeslice; `None` once it
    /// expired.  The null timer of a cooperative run reports the largest
    /// representable remainder and never expires.
    pub fn timer_get_remaining(&self, real_timer: bool) -> (r: Option<u32>)
        ensures
            r == spec_timer_remaining(*self, real_timer),
    {
        if !real_timer {
            Some(u32::MAX)
        } else if self.timer.expired {
            None
        } else {
            Some(self.timer.remaining)
        }
    }
}

/// What the remaining-time query reports.
pub open spec fn spec_timer_remaining(c: Chip, real_timer: bool) -> Option<u32> {
    if !real_timer {
        Some(u32::MAX)
    } else if c.timer.expired {
        None
    } else {
        Some(c.timer.remaining)
    }
}

} // verus!
