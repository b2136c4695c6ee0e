//! The whole mutable state of a running session and its once-per-tick update.

use vstd::prelude::*;
use crate::config::SessionConfig;
use crate::interval::{saturating_sum, Interval, MILLIS_PER_SEC};
use crate::machine::{Phase, StateMachine};

verus! {

/// A fresh interval of `secs` seconds.
pub open spec fn fresh_interval(secs: u64) -> Interval {
    Interval { elapsed_ms: 0, duration_ms: (secs * MILLIS_PER_SEC) as u64 }
}

/// Everything the control loop keeps between ticks.
#[derive(Clone, Copy, Debug, PartialEq, Eq)]
pub struct Session {
    pub config: SessionConfig,
    pub machine: StateMachine,
    pub interval: Interval,
    pub paused: bool,
}

impl Session {
    /// The settings are valid, the machine is consistent and uses their count,
    /// and a running interval has the length of its phase.
    pub open spec fn wf(self) -> bool {
        &&& self.config.wf()
        &&& self.machine.wf()
        &&& self.machine.max_pomodoros == self.config.max_pomodoros
        &&& self.machine.phase == Phase::Focus ==> self.interval.duration_ms
            == self.config.focus_secs * MILLIS_PER_SEC
        &&& self.machine.phase == Phase::Break ==> self.interval.duration_ms
            == self.config.break_secs * MILLIS_PER_SEC
    }

    /// The pause flag after a tick's toggle request: it flips once, and only
    /// while an interval runs.
    pub open spec fn paused_after(self, toggle_pause: bool) -> bool {
        if toggle_pause && self.machine.phase.is_timed() {
            !self.paused
        } else {
            self.paused
        }
    }

    /// The interval after a tick: time is added only while an interval runs and
    /// is not paused.
    pub open spec fn interval_after(self, elapsed_ms: u64, toggle_pause: bool) -> Interval {
        if !self.paused_after(toggle_pause) && self.machine.phase.is_timed() {
            Interval {
                elapsed_ms: saturating_sum(self.interval.elapsed_ms, elapsed_ms),
                ..self.interval
            }
        } else {
            self.interval
        }
    }

    /// Whether a tick ends the running interval, which sounds the notification.
    pub open spec fn notifies(self, elapsed_ms: u64, toggle_pause: bool) -> bool {
        self.machine.phase.is_timed() && self.interval_after(elapsed_ms, toggle_pause).ended()
    }

    /// The session after one tick: an ended interval moves the machine on; a key
    /// that acknowledges an ended interval starts the next one.
    pub open spec fn advanced(self, elapsed_ms: u64, ack: bool, toggle_pause: bool) -> Session {
        let ticked = Session {
            paused: self.paused_after(toggle_pause),
            interval: self.interval_after(elapsed_ms, toggle_pause),
            ..self
        };
        match self.machine.phase {
            Phase::Focus | Phase::Break => if self.notifies(elapsed_ms, toggle_pause) {
                Session { machine: self.machine.next(), ..ticked }
            } else {
                ticked
            },
            Phase::FocusEndedAwaitingAck => if ack {
                Session {
                    machine: self.machine.next(),
                    interval: fresh_interval(self.config.break_secs),
                    ..ticked
                }
            } else {
                ticked
            },
            Phase::BreakEndedAwaitingAck => if ack {
                Session {
                    machine: self.machine.next(),
                    interval: fresh_interval(self.config.focus_secs),
                    ..ticked
                }
            } else {
                ticked
            },
            Phase::Done => ticked,
        }
    }

    /// A session at the start of its first focus interval, not paused.
    pub fn new(config: SessionConfig) -> (r: Session)
        requires
            config.wf(),
        ensures
            r.wf(),
            r.config == config,
            r.machine.phase == Phase::Focus,
            r.machine.pomodoro_count == 1,
            r.machine.break_count == 1,
            r.interval == fresh_interval(config.focus_secs),
            !r.paused,
    {
        Session {
            config,
            machine: StateMachine::new(config.max_pomodoros),
            interval: Interval::from_secs(config.focus_secs),
            paused: false,
        }
    }

    /// One tick: first the pause toggle, then the elapsed time, then at most one
    /// phase change. Returns whether the notification sound is due.
    pub fn advance(&mut self, elapsed_ms: u64, ack: bool, toggle_pause: bool) -> (notify: bool)
        requires
            old(self).wf(),
        ensures
            final(self).wf(),
            *final(self) == old(self).advanced(elapsed_ms, ack, toggle_pause),
            notify == old(self).notifies(elapsed_ms, toggle_pause),
    {
        let timed = match self.machine.phase {
            Phase::Focus | Phase::Break => true,
            _ => false,
        };
        if toggle_pause && timed {
            self.paused = !self.paused;
        }
        if !self.paused && timed {
            self.interval.add_elapsed(elapsed_ms);
        }
        match self.machine.phase {
            Phase::Focus | Phase::Break => {
                if self.interval.has_ended() {
                    self.machine.next_state();
                    true
                } else {
                    false
                }
            },
            Phase::FocusEndedAwaitingAck => {
                if ack {
                    self.machine.next_state();
                    self.interval = Interval::from_secs(self.config.break_secs);
                }
                false
            },
            Phase::BreakEndedAwaitingAck => {
                if ack {
                    self.machine.next_state();
                    self.interval = Interval::from_secs(self.config.focus_secs);
                }
                false
            },
            Phase::Done => false,
        }
    }
}

} // verus!
