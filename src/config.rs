//! The fixed settings of a session and their validation.

use vstd::prelude::*;
use crate::interval::MAX_INTERVAL_SECS;

verus! {

/// The longest interval, in minutes, that the session can time.
pub const MAX_INTERVAL_MINUTES: u64 = 307445734561825;

/// Seconds in one minute.
pub const SECS_PER_MINUTE: u64 = 60;

/// Lengths of the focus and break intervals and how many focus intervals to run.
#[derive(Clone, Copy, Debug, PartialEq, Eq)]
pub struct SessionConfig {
    pub focus_secs: u64,
    pub break_secs: u64,
    pub max_pomodoros: u8,
}

/// Why a set of settings was refused.
#[derive(Clone, Copy, Debug, PartialEq, Eq, Structural)]
pub enum ConfigError {
    /// A length or the count is below zero.
    Negative,
    /// A length is too long to time, or the count does not fit the counters.
    TooLarge,
    /// The session would run no focus interval at all.
    NoPomodoros,
}

impl SessionConfig {
    /// Interval lengths can be timed in milliseconds and at least one focus
    /// interval is run.
    pub open spec fn wf(self) -> bool {
        &&& self.focus_secs <= MAX_INTERVAL_SECS
        &&& self.break_secs <= MAX_INTERVAL_SECS
        &&& self.max_pomodoros >= 1
    }

    /// What `from_minutes` returns for these arguments.
    pub open spec fn from_minutes_spec(
        focus_minutes: i64,
        break_minutes: i64,
        max_pomodoros: i64,
    ) -> Result<SessionConfig, ConfigError> {
        if focus_minutes < 0 || break_minutes < 0 || max_pomodoros < 0 {
            Err(ConfigError::Negative)
        } else if focus_minutes > MAX_INTERVAL_MINUTES || break_minutes > MAX_INTERVAL_MINUTES
            || max_pomodoros > u8::MAX {
            Err(ConfigError::TooLarge)
        } else if max_pomodoros == 0 {
            Err(ConfigError::NoPomodoros)
        } else {
            Ok(
                SessionConfig {
                    focus_secs: (focus_minutes * SECS_PER_MINUTE) as u64,
                    break_secs: (break_minutes * SECS_PER_MINUTE) as u64,
                    max_pomodoros: max_pomodoros as u8,
                },
            )
        }
    }

    /// Settings from interval lengths in minutes. Negative values are refused
    /// first, then lengths too long to time and counts above `u8::MAX`, then a
    /// count of zero. A length of zero is accepted: such an interval ends at once.
    pub fn from_minutes(focus_minutes: i64, break_minutes: i64, max_pomodoros: i64) -> (r: Result<
        SessionConfig,
        ConfigError,
    >)
        ensures
            r == Self::from_minutes_spec(focus_minutes, break_minutes, max_pomodoros),
            r is Ok ==> r->Ok_0.wf(),
    {
        if focus_minutes < 0 || break_minutes < 0 || max_pomodoros < 0 {
            return Err(ConfigError::Negative);
        }
        if focus_minutes as u64 > MAX_INTERVAL_MINUTES || break_minutes as u64 > MAX_INTERVAL_MINUTES
            || max_pomodoros > 255 {
            return Err(ConfigError::TooLarge);
        }
        if max_pomodoros == 0 {
            return Err(ConfigError::NoPomodoros);
        }
        Ok(
            SessionConfig {
                focus_secs: focus_minutes as u64 * SECS_PER_MINUTE,
                break_secs: break_minutes as u64 * SECS_PER_MINUTE,
                max_pomodoros: max_pomodoros as u8,
            },
        )
    }
}

} // verus!
