//! The phases of a session and the counters that move with them.

use vstd::prelude::*;

verus! {

/// What the session is doing right now.
#[derive(Clone, Copy, Debug, PartialEq, Eq, Structural)]
pub enum Phase {
    Focus,
    Break,
    FocusEndedAwaitingAck,
    BreakEndedAwaitingAck,
    Done,
}

impl Phase {
    /// The phases in which an interval is running.
    pub open spec fn is_timed(self) -> bool {
        self == Phase::Focus || self == Phase::Break
    }

    /// The phases that wait for the user to press a key.
    pub open spec fn is_awaiting_ack(self) -> bool {
        self == Phase::FocusEndedAwaitingAck || self == Phase::BreakEndedAwaitingAck
    }
}

/// The phase together with the 1-based numbers of the current focus and break
/// intervals.
#[derive(Clone, Copy, Debug, PartialEq, Eq)]
pub struct StateMachine {
    pub pomodoro_count: u8,
    pub break_count: u8,
    pub max_pomodoros: u8,
    pub phase: Phase,
}

impl StateMachine {
    /// Counters stay between 1 and the maximum; the break number trails the
    /// focus number by one exactly while a break is under way; `Done` is only
    /// reached on the last focus interval.
    pub open spec fn wf(self) -> bool {
        &&& 1 <= self.pomodoro_count <= self.max_pomodoros
        &&& match self.phase {
            Phase::Break | Phase::BreakEndedAwaitingAck => self.break_count + 1
                == self.pomodoro_count,
            _ => self.break_count == self.pomodoro_count,
        }
        &&& self.phase == Phase::FocusEndedAwaitingAck ==> self.pomodoro_count
            < self.max_pomodoros
        &&& self.phase == Phase::Done ==> self.pomodoro_count == self.max_pomodoros
    }

    /// The machine after one transition out of its current phase.
    pub open spec fn next(self) -> StateMachine {
        match self.phase {
            Phase::Focus => if self.pomodoro_count == self.max_pomodoros {
                StateMachine { phase: Phase::Done, ..self }
            } else {
                StateMachine { phase: Phase::FocusEndedAwaitingAck, ..self }
            },
            Phase::FocusEndedAwaitingAck => StateMachine {
                phase: Phase::Break,
                pomodoro_count: (self.pomodoro_count + 1) as u8,
                ..self
            },
            Phase::Break => StateMachine { phase: Phase::BreakEndedAwaitingAck, ..self },
            Phase::BreakEndedAwaitingAck => StateMachine {
                phase: Phase::Focus,
                break_count: (self.break_count + 1) as u8,
                ..self
            },
            Phase::Done => self,
        }
    }

    /// A machine at the start of the first focus interval.
    pub fn new(max_pomodoros: u8) -> (r: StateMachine)
        requires
            max_pomodoros >= 1,
        ensures
            r.wf(),
            r.pomodoro_count == 1,
            r.break_count == 1,
            r.max_pomodoros == max_pomodoros,
            r.phase == Phase::Focus,
    {
        StateMachine { pomodoro_count: 1, break_count: 1, max_pomodoros, phase: Phase::Focus }
    }

    /// Takes the transition out of the current phase: a focus interval ends in
    /// `Done` when it was the last one and otherwise waits for a key; a key
    /// starts the next break or focus interval and advances its number.
    pub fn next_state(&mut self)
        requires
            old(self).wf(),
        ensures
            *final(self) == old(self).next(),
            final(self).wf(),
    {
        match self.phase {
            Phase::Focus => {
                if self.pomodoro_count == self.max_pomodoros {
                    self.phase = Phase::Done;
                } else {
                    self.phase = Phase::FocusEndedAwaitingAck;
                }
            },
            Phase::FocusEndedAwaitingAck => {
                self.pomodoro_count = self.pomodoro_count + 1;
                self.phase = Phase::Break;
            },
            Phase::Break => {
                self.phase = Phase::BreakEndedAwaitingAck;
            },
            Phase::BreakEndedAwaitingAck => {
                self.break_count = self.break_count + 1;
                self.phase = Phase::Focus;
            },
            Phase::Done => {},
        }
    }
}

} // verus!
