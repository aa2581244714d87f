use crate::decay::{KEY_PRESSED_LIT_DELAY, LAST_PRESSED_CLEANUP_CHECK_INTERVAL};
use vstd::prelude::*;

verus! {

/// What a background thread does next.
#[derive(Clone, Copy, Debug, PartialEq, Eq, Structural)]
pub enum SchedulerAction {
    /// The application is shutting down: leave the loop.
    Stop,
    /// Sleep for `timeout` milliseconds, or until a press cuts the sleep short, then
    /// ask the host for a redraw.
    Sleep { timeout: u64 },
}

/// What the decay sweeper does next.
#[derive(Clone, Copy, Debug, PartialEq, Eq, Structural)]
pub enum SweeperAction {
    /// The application is shutting down: leave the loop.
    Stop,
    /// Sleep for `interval` milliseconds, then put out every key whose last press
    /// is more than `max_age` milliseconds old.
    SleepThenSweep { interval: u64, max_age: u64 },
}

/// The time `delay` after `now`, held at `u64::MAX`.
pub open spec fn deadline_after(now: u64, delay: u64) -> u64 {
    if now + delay <= u64::MAX {
        (now + delay) as u64
    } else {
        u64::MAX
    }
}

/// How long the scheduler sleeps at time `now`: until the deadline if one is
/// pending, not at all if it has passed, and for the idle interval if there is none.
pub open spec fn sleep_for(deadline: Option<u64>, idle_interval: u64, now: u64) -> u64 {
    match deadline {
        Some(at) => if at > now {
            (at - now) as u64
        } else {
            0
        },
        None => idle_interval,
    }
}

/// A deadline that has been reached is done with.
pub open spec fn pending_after(deadline: Option<u64>, now: u64) -> Option<u64> {
    match deadline {
        Some(at) => if at <= now {
            None
        } else {
            deadline
        },
        None => None,
    }
}

/// Decides when the host is next asked for a redraw: soon after every press, so
/// that a key lights up at once, and again when the light is due to go out.
#[derive(Clone, Copy, Debug, PartialEq, Eq, Structural)]
pub struct RepaintScheduler {
    /// When the most recent press is due to go out, if that is still to come.
    pub deadline: Option<u64>,
    /// How long a key stays lit after a press.
    pub lit_duration: u64,
    /// How long to sleep while no key is lit.
    pub idle_interval: u64,
}

impl RepaintScheduler {
    /// A scheduler with no redraw pending.
    pub fn new(lit_duration: u64, idle_interval: u64) -> (scheduler: Self)
        ensures
            scheduler == (RepaintScheduler { deadline: None, lit_duration, idle_interval }),
    {
        RepaintScheduler { deadline: None, lit_duration, idle_interval }
    }

    /// Takes note of a press at time `now`. The deadline moves to `lit_duration`
    /// after this press, whatever it was before: only the latest press counts.
    pub fn note_press(&mut self, now: u64)
        ensures
            *final(self) == (RepaintScheduler {
                deadline: Some(deadline_after(now, old(self).lit_duration)),
                ..*old(self)
            }),
    {
        let at = if now <= u64::MAX - self.lit_duration {
            now + self.lit_duration
        } else {
            u64::MAX
        };
        self.deadline = Some(at);
    }

    /// What the scheduler thread does when it starts or has just asked for a redraw.
    pub open spec fn action_spec(self, exit: bool, now: u64) -> SchedulerAction {
        if exit {
            SchedulerAction::Stop
        } else {
            SchedulerAction::Sleep { timeout: sleep_for(self.deadline, self.idle_interval, now) }
        }
    }

    /// Decides what the scheduler thread does at time `now`, given the exit flag as
    /// it was just read.
    pub fn next_action(&self, exit: bool, now: u64) -> (action: SchedulerAction)
        ensures
            action == self.action_spec(exit, now),
    {
        if exit {
            return SchedulerAction::Stop;
        }
        let timeout = match self.deadline {
            Some(at) => if at > now {
                at - now
            } else {
                0
            },
            None => self.idle_interval,
        };
        SchedulerAction::Sleep { timeout }
    }

    /// The scheduler thread woke at time `now`, whether its sleep ran out or a press
    /// cut it short, and has asked for a redraw. A deadline that has been reached is
    /// dropped, and the result says what the thread does next.
    pub fn on_wake(&mut self, exit: bool, now: u64) -> (action: SchedulerAction)
        ensures
            *final(self) == (RepaintScheduler {
                deadline: pending_after(old(self).deadline, now),
                ..*old(self)
            }),
            action == final(self).action_spec(exit, now),
    {
        if let Some(at) = self.deadline {
            if at <= now {
                self.deadline = None;
            }
        }
        self.next_action(exit, now)
    }
}

/// Decides what the decay sweeper does, given the exit flag as it was just read:
/// it stops on exit, and else sleeps one check interval and then sweeps.
pub fn sweeper_action(exit: bool) -> (action: SweeperAction)
    ensures
        action == (if exit {
            SweeperAction::Stop
        } else {
            SweeperAction::SleepThenSweep {
                interval: LAST_PRESSED_CLEANUP_CHECK_INTERVAL,
                max_age: KEY_PRESSED_LIT_DELAY,
            }
        }),
{
    if exit {
        SweeperAction::Stop
    } else {
        SweeperAction::SleepThenSweep {
            interval: LAST_PRESSED_CLEANUP_CHECK_INTERVAL,
            max_age: KEY_PRESSED_LIT_DELAY,
        }
    }
}

/// While a deadline is pending the scheduler never sleeps past it, and once the
/// thread has woken at or after the deadline it goes back to the idle interval:
/// it does not spin.
pub proof fn lemma_scheduler_wakes_by_deadline(scheduler: RepaintScheduler, now: u64)
    ensures
        scheduler.deadline matches Some(at) ==> now + sleep_for(
            scheduler.deadline,
            scheduler.idle_interval,
            now,
        ) <= (if at > now {
            at
        } else {
            now
        }),
        scheduler.deadline matches Some(at) && at <= now ==> sleep_for(
            pending_after(scheduler.deadline, now),
            scheduler.idle_interval,
            now,
        ) == scheduler.idle_interval,
{
}

} // verus!
