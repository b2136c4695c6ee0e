//! The single status line that shows the session to the user.

use vstd::prelude::*;
use crate::interval::Interval;
use crate::machine::Phase;
use crate::session::Session;

verus! {

/// The character of a decimal digit.
pub open spec fn digit_char(d: nat) -> char {
    if d == 0 {
        '0'
    } else if d == 1 {
        '1'
    } else if d == 2 {
        '2'
    } else if d == 3 {
        '3'
    } else if d == 4 {
        '4'
    } else if d == 5 {
        '5'
    } else if d == 6 {
        '6'
    } else if d == 7 {
        '7'
    } else if d == 8 {
        '8'
    } else {
        '9'
    }
}

/// A number written in decimal, without leading zeros.
pub open spec fn decimal(n: nat) -> Seq<char>
    decreases n,
{
    if n < 10 {
        seq![digit_char(n)]
    } else {
        decimal(n / 10) + seq![digit_char(n % 10)]
    }
}

/// A number written with at least two digits.
pub open spec fn two_digits(n: nat) -> Seq<char> {
    if n < 10 {
        seq!['0'] + decimal(n)
    } else {
        decimal(n)
    }
}

/// Seconds written as minutes and seconds, `MM:SS`.
pub open spec fn clock_text(secs: nat) -> Seq<char> {
    two_digits(secs / 60) + seq![':'] + two_digits(secs % 60)
}

/// The suffix shown while the timer is paused.
pub open spec fn pause_suffix(paused: bool) -> Seq<char> {
    if paused {
        " (paused)"@
    } else {
        Seq::empty()
    }
}

/// The status line for a session.
pub open spec fn status_text(s: Session) -> Seq<char> {
    match s.machine.phase {
        Phase::Focus => "Pomodoro "@ + decimal(s.machine.pomodoro_count as nat) + ": "@
            + clock_text(s.interval.remaining_secs_spec()) + pause_suffix(s.paused),
        Phase::Break => "Break "@ + decimal(s.machine.break_count as nat) + ": "@ + clock_text(
            s.interval.remaining_secs_spec(),
        ) + pause_suffix(s.paused),
        Phase::FocusEndedAwaitingAck => "Pomodoro ended. Press key to begin break."@,
        Phase::BreakEndedAwaitingAck => "Break ended. Press key to begin a new pomodoro."@,
        Phase::Done => "Done. Press any key to end."@,
    }
}

fn digit_str(d: u64) -> (r: &'static str)
    requires
        d < 10,
    ensures
        r@ == seq![digit_char(d as nat)],
{
    proof {
        reveal_strlit("0");
        reveal_strlit("1");
        reveal_strlit("2");
        reveal_strlit("3");
        reveal_strlit("4");
        reveal_strlit("5");
        reveal_strlit("6");
        reveal_strlit("7");
        reveal_strlit("8");
        reveal_strlit("9");
    }
    match d {
        0 => "0",
        1 => "1",
        2 => "2",
        3 => "3",
        4 => "4",
        5 => "5",
        6 => "6",
        7 => "7",
        8 => "8",
        _ => "9",
    }
}

/// Appends `n` in decimal to `out`.
pub fn push_decimal(out: &mut String, n: u64)
    ensures
        final(out)@ == old(out)@ + decimal(n as nat),
    decreases n,
{
    if n >= 10 {
        push_decimal(out, n / 10);
    }
    out.append(digit_str(n % 10));
    assert(out@ =~= old(out)@ + decimal(n as nat));
}

fn push_two_digits(out: &mut String, n: u64)
    ensures
        final(out)@ == old(out)@ + two_digits(n as nat),
{
    if n < 10 {
        proof {
            reveal_strlit("0");
        }
        out.append("0");
    }
    push_decimal(out, n);
    assert(final(out)@ =~= old(out)@ + two_digits(n as nat));
}

/// Writes `secs` as `MM:SS`; minutes take more digits past 99.
pub fn format_clock(secs: u64) -> (r: String)
    ensures
        r@ == clock_text(secs as nat),
{
    let mut out = String::new();
    push_two_digits(&mut out, secs / 60);
    proof {
        reveal_strlit(":");
    }
    out.append(":");
    push_two_digits(&mut out, secs % 60);
    assert(out@ =~= clock_text(secs as nat));
    out
}

impl Interval {
    /// The time left, as `MM:SS`, never negative.
    pub fn to_clock_string(&self) -> (r: String)
        ensures
            r@ == clock_text(self.remaining_secs_spec()),
    {
        format_clock(self.remaining_secs())
    }
}

fn push_pause_suffix(out: &mut String, paused: bool)
    ensures
        final(out)@ == old(out)@ + pause_suffix(paused),
{
    if paused {
        out.append(" (paused)");
    } else {
        assert(old(out)@ + pause_suffix(paused) =~= old(out)@);
    }
}

impl Session {
    /// The line to show for this session.
    pub fn status_line(&self) -> (r: String)
        ensures
            r@ == status_text(*self),
    {
        match self.machine.phase {
            Phase::Focus => {
                let mut out = String::from_str("Pomodoro ");
                push_decimal(&mut out, self.machine.pomodoro_count as u64);
                out.append(": ");
                out.append(self.interval.to_clock_string().as_str());
                push_pause_suffix(&mut out, self.paused);
                out
            },
            Phase::Break => {
                let mut out = String::from_str("Break ");
                push_decimal(&mut out, self.machine.break_count as u64);
                out.append(": ");
                out.append(self.interval.to_clock_string().as_str());
                push_pause_suffix(&mut out, self.paused);
                out
            },
            Phase::FocusEndedAwaitingAck => String::from_str(
                "Pomodoro ended. Press key to begin break.",
            ),
            Phase::BreakEndedAwaitingAck => String::from_str(
                "Break ended. Press key to begin a new pomodoro.",
            ),
            Phase::Done => String::from_str("Done. Press any key to end."),
        }
    }
}

} // verus!
