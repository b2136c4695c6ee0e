//! A Pomodoro timer's core: timed intervals, the phase state machine, the
//! per-tick session update and the status line shown to the user.

pub mod interval;
pub mod machine;
pub mod config;
pub mod session;
pub mod display;
pub mod control;
pub mod laws;
