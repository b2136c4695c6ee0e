//! What the control loop decides on each tick, given what the input queue
//! handed it and how much time has passed.

use vstd::prelude::*;
use crate::machine::Phase;
use crate::session::Session;

verus! {

/// A key as the terminal reported it.
#[derive(Clone, Copy, Debug, PartialEq, Eq, Structural)]
pub enum KeyPress {
    Char(char),
    Ctrl(char),
    Other,
}

/// What a key asks of the session.
#[derive(Clone, Copy, Debug, PartialEq, Eq, Structural)]
pub enum Command {
    Quit,
    TogglePause,
    Other,
}

/// What the input listener sends down the queue.
#[derive(Clone, Copy, Debug, PartialEq, Eq, Structural)]
pub enum Event {
    Key(KeyPress),
}

/// The result of one bounded wait on the input queue.
#[derive(Clone, Copy, Debug, PartialEq, Eq, Structural)]
pub enum Poll {
    Received(Event),
    TimedOut,
    Disconnected,
}

/// What the control loop does after a tick.
#[derive(Clone, Copy, Debug, PartialEq, Eq, Structural)]
pub enum Outcome {
    /// Keep running; sound the notification first when `notify` is set.
    Continue { notify: bool },
    /// The user ended the session.
    Finish,
    /// The input listener is gone: report it and stop.
    Fatal,
}

/// `q` and Ctrl-C quit, `p` toggles the pause, any other key is plain input.
pub open spec fn command_of(key: KeyPress) -> Command {
    match key {
        KeyPress::Char('q') | KeyPress::Ctrl('c') => Command::Quit,
        KeyPress::Char('p') => Command::TogglePause,
        _ => Command::Other,
    }
}

/// Sorts a key into the command it stands for.
pub fn classify(key: KeyPress) -> (r: Command)
    ensures
        r == command_of(key),
{
    match key {
        KeyPress::Char(c) => {
            if c == 'q' {
                Command::Quit
            } else if c == 'p' {
                Command::TogglePause
            } else {
                Command::Other
            }
        },
        KeyPress::Ctrl(c) => {
            if c == 'c' {
                Command::Quit
            } else {
                Command::Other
            }
        },
        KeyPress::Other => Command::Other,
    }
}

impl Session {
    /// The session and the loop's decision after a tick. A quit key, any key
    /// once the session is done, and a closed queue stop the loop and leave the
    /// session as it was. Otherwise the tick advances the session: a key is an
    /// acknowledgment while an ended interval waits for one, and `p` toggles
    /// the pause.
    pub open spec fn stepped(self, poll: Poll, elapsed_ms: u64) -> (Session, Outcome) {
        match poll {
            Poll::Disconnected => (self, Outcome::Fatal),
            Poll::Received(Event::Key(key)) => if command_of(key) == Command::Quit
                || self.machine.phase == Phase::Done {
                (self, Outcome::Finish)
            } else {
                let ack = self.machine.phase.is_awaiting_ack();
                let toggle = !ack && command_of(key) == Command::TogglePause;
                (
                    self.advanced(elapsed_ms, ack, toggle),
                    Outcome::Continue { notify: self.notifies(elapsed_ms, toggle) },
                )
            },
            Poll::TimedOut => (
                self.advanced(elapsed_ms, false, false),
                Outcome::Continue { notify: self.notifies(elapsed_ms, false) },
            ),
        }
    }

    /// Runs the decisions of one loop iteration; the caller polls the queue,
    /// measures the time, plays the sound and draws the line.
    pub fn step(&mut self, poll: Poll, elapsed_ms: u64) -> (r: Outcome)
        requires
            old(self).wf(),
        ensures
            final(self).wf(),
            (*final(self), r) == old(self).stepped(poll, elapsed_ms),
    {
        match poll {
            Poll::Disconnected => Outcome::Fatal,
            Poll::Received(Event::Key(key)) => {
                let command = classify(key);
                let done = match self.machine.phase {
                    Phase::Done => true,
                    _ => false,
                };
                if done || matches!(command, Command::Quit) {
                    Outcome::Finish
                } else {
                    let ack = match self.machine.phase {
                        Phase::FocusEndedAwaitingAck | Phase::BreakEndedAwaitingAck => true,
                        _ => false,
                    };
                    let toggle = !ack && matches!(command, Command::TogglePause);
                    let notify = self.advance(elapsed_ms, ack, toggle);
                    Outcome::Continue { notify }
                }
            },
            Poll::TimedOut => {
                let notify = self.advance(elapsed_ms, false, false);
                Outcome::Continue { notify }
            },
        }
    }
}

} // verus!
