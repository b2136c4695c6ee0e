//! Properties of the session that hold across ticks, proved from the
//! single-tick contracts.

use vstd::prelude::*;
use crate::control::{command_of, Command, Event, KeyPress, Outcome, Poll};
use crate::interval::{MAX_INTERVAL_SECS, MILLIS_PER_SEC};
use crate::machine::Phase;
use crate::session::Session;

verus! {

/// The inputs of one tick.
#[derive(Clone, Copy, Debug, PartialEq, Eq)]
pub struct Tick {
    pub elapsed_ms: u64,
    pub ack: bool,
    pub toggle_pause: bool,
}

/// The session after a sequence of ticks, applied in order.
pub open spec fn run(s: Session, ticks: Seq<Tick>) -> Session
    decreases ticks.len(),
{
    if ticks.len() == 0 {
        s
    } else {
        let t = ticks.last();
        run(s, ticks.drop_last()).advanced(t.elapsed_ms, t.ack, t.toggle_pause)
    }
}

/// The session after ticks that bring only elapsed time, no key.
pub open spec fn run_idle(s: Session, ticks: Seq<u64>) -> Session
    decreases ticks.len(),
{
    if ticks.len() == 0 {
        s
    } else {
        run_idle(s, ticks.drop_last()).advanced(ticks.last(), false, false)
    }
}

/// The sum of a sequence of elapsed times.
pub open spec fn total(ticks: Seq<u64>) -> nat
    decreases ticks.len(),
{
    if ticks.len() == 0 {
        0
    } else {
        total(ticks.drop_last()) + ticks.last() as nat
    }
}

proof fn lemma_total_monotone(ticks: Seq<u64>, j: int, k: int)
    requires
        0 <= j <= k <= ticks.len(),
    ensures
        total(ticks.take(j)) <= total(ticks.take(k)),
    decreases k - j,
{
    if j < k {
        assert(ticks.take(k).drop_last() =~= ticks.take(k - 1));
        lemma_total_monotone(ticks, j, k - 1);
    }
}

proof fn lemma_idle_prefix(s: Session, ticks: Seq<u64>, k: int)
    requires
        s.wf(),
        s.machine.phase.is_timed(),
        !s.paused,
        s.interval.elapsed_ms == 0,
        0 <= k <= ticks.len(),
    ensures
        run_idle(s, ticks.take(k)).wf(),
        (k == 0 || total(ticks.take(k)) < s.interval.duration_ms) ==> {
            let r = run_idle(s, ticks.take(k));
            &&& r.machine == s.machine
            &&& !r.paused
            &&& r.interval.duration_ms == s.interval.duration_ms
            &&& r.interval.elapsed_ms == total(ticks.take(k))
        },
        (k > 0 && total(ticks.take(k)) >= s.interval.duration_ms) ==> run_idle(
            s,
            ticks.take(k),
        ).machine == s.machine.next(),
    decreases k,
{
    if k == 0 {
        assert(ticks.take(0) =~= Seq::<u64>::empty());
    } else {
        let prefix = ticks.take(k);
        assert(prefix.drop_last() =~= ticks.take(k - 1));
        lemma_idle_prefix(s, ticks, k - 1);
        lemma_total_monotone(ticks, k - 1, k);
        assert(prefix.last() == ticks[k - 1]);
        let before = run_idle(s, ticks.take(k - 1));
        assert(run_idle(s, prefix) == before.advanced(ticks[k - 1], false, false));
        assert(total(prefix) == total(ticks.take(k - 1)) + ticks[k - 1]);
        lemma_advance_keeps_wf(before, ticks[k - 1], false, false);
        if k > 1 && total(ticks.take(k - 1)) >= s.interval.duration_ms {
            // Out of the timed phase, an idle tick changes nothing in the machine.
            assert(!s.machine.next().phase.is_timed());
            assert(!before.machine.phase.is_timed());
        }
    }
}

// A tick keeps the session well formed.
proof fn lemma_advance_keeps_wf(s: Session, elapsed_ms: u64, ack: bool, toggle_pause: bool)
    requires
        s.wf(),
    ensures
        s.advanced(elapsed_ms, ack, toggle_pause).wf(),
{
    if s.machine.phase == Phase::FocusEndedAwaitingAck && ack {
        assert(s.config.break_secs * MILLIS_PER_SEC <= u64::MAX) by (nonlinear_arith)
            requires
                s.config.break_secs <= MAX_INTERVAL_SECS,
        ;
    }
    if s.machine.phase == Phase::BreakEndedAwaitingAck && ack {
        assert(s.config.focus_secs * MILLIS_PER_SEC <= u64::MAX) by (nonlinear_arith)
            requires
                s.config.focus_secs <= MAX_INTERVAL_SECS,
        ;
    }
}

/// A running interval that starts from nothing and receives only elapsed time
/// is still in its phase after a tick exactly when the time so far is below its
/// duration. It leaves the phase, with the notification, on the first tick at
/// which the sum reaches the duration, never before and never again. An
/// interval of length zero thus ends on the first tick.
pub proof fn lemma_interval_ends_once(s: Session, ticks: Seq<u64>)
    requires
        s.wf(),
        s.machine.phase.is_timed(),
        !s.paused,
        s.interval.elapsed_ms == 0,
    ensures
        forall|k: int|
            0 < k <= ticks.len() ==> ((#[trigger] run_idle(s, ticks.take(k))).machine.phase
                == s.machine.phase <==> total(ticks.take(k)) < s.interval.duration_ms),
        forall|k: int|
            0 < k <= ticks.len() ==> ((#[trigger] run_idle(s, ticks.take(k - 1))).notifies(
                ticks[k - 1],
                false,
            ) <==> ((k == 1 || total(ticks.take(k - 1)) < s.interval.duration_ms) && total(
                ticks.take(k),
            ) >= s.interval.duration_ms)),
{
    assert forall|k: int| 0 < k <= ticks.len() implies ((#[trigger] run_idle(
        s,
        ticks.take(k),
    )).machine.phase == s.machine.phase <==> total(ticks.take(k))
        < s.interval.duration_ms) by {
        lemma_idle_prefix(s, ticks, k);
    }
    assert forall|k: int| 0 < k <= ticks.len() implies ((#[trigger] run_idle(
        s,
        ticks.take(k - 1),
    )).notifies(ticks[k - 1], false) <==> ((k == 1 || total(ticks.take(k - 1))
        < s.interval.duration_ms) && total(ticks.take(k)) >= s.interval.duration_ms)) by {
        lemma_idle_prefix(s, ticks, k - 1);
        assert(ticks.take(k).drop_last() =~= ticks.take(k - 1));
        lemma_total_monotone(ticks, k - 1, k);
    }
}

/// While the timer is paused, a tick leaves the interval, and so its elapsed
/// time, exactly as it was, however much time passed.
pub proof fn lemma_pause_freezes_elapsed(
    s: Session,
    elapsed_ms: u64,
    ack: bool,
    toggle_pause: bool,
)
    requires
        s.wf(),
        s.paused_after(toggle_pause),
    ensures
        s.machine.phase.is_timed() ==> s.advanced(elapsed_ms, ack, toggle_pause).interval
            == s.interval,
        s.advanced(elapsed_ms, ack, toggle_pause).interval.elapsed_ms == s.interval.elapsed_ms
            || (s.machine.phase.is_awaiting_ack() && ack),
{
}

/// Ticks without an acknowledgment never move the session out of a phase that
/// waits for one, whatever time passes and whatever toggles arrive.
pub proof fn lemma_ack_required(s: Session, ticks: Seq<Tick>)
    requires
        s.wf(),
        s.machine.phase.is_awaiting_ack(),
        forall|i: int| 0 <= i < ticks.len() ==> !(#[trigger] ticks[i]).ack,
    ensures
        run(s, ticks).machine == s.machine,
    decreases ticks.len(),
{
    if ticks.len() > 0 {
        let rest = ticks.drop_last();
        assert forall|i: int| 0 <= i < rest.len() implies !(#[trigger] rest[i]).ack by {
            assert(rest[i] == ticks[i]);
        }
        lemma_ack_required(s, rest);
        assert(!ticks[ticks.len() - 1].ack);
    }
}

/// The focus number grows by one exactly when an acknowledgment starts a break,
/// and on no other tick; the break number grows by one exactly when an
/// acknowledgment starts a focus interval. The session reaches `Done` exactly
/// when a focus interval ends while its number equals the maximum.
pub proof fn lemma_counters(s: Session, elapsed_ms: u64, ack: bool, toggle_pause: bool)
    requires
        s.wf(),
    ensures
        ({
            let t = s.advanced(elapsed_ms, ack, toggle_pause);
            let starts_break = s.machine.phase == Phase::FocusEndedAwaitingAck && t.machine.phase
                == Phase::Break;
            let starts_focus = s.machine.phase == Phase::BreakEndedAwaitingAck && t.machine.phase
                == Phase::Focus;
            &&& starts_break <==> (s.machine.phase == Phase::FocusEndedAwaitingAck && ack)
            &&& t.machine.pomodoro_count == s.machine.pomodoro_count + (if starts_break {
                1int
            } else {
                0int
            })
            &&& t.machine.break_count == s.machine.break_count + (if starts_focus {
                1int
            } else {
                0int
            })
            &&& (s.machine.phase != Phase::Done && t.machine.phase == Phase::Done) <==> (
            s.machine.phase == Phase::Focus && s.interval_after(elapsed_ms, toggle_pause).ended()
                && s.machine.pomodoro_count == s.config.max_pomodoros)
        }),
{
}

/// Each toggle request flips the pause flag exactly once, so two in a row
/// while an interval runs restore the flag.
pub proof fn lemma_toggle_twice(
    s: Session,
    first_ms: u64,
    first_ack: bool,
    second_ms: u64,
    second_ack: bool,
)
    requires
        s.wf(),
        s.machine.phase.is_timed(),
        s.advanced(first_ms, first_ack, true).machine.phase.is_timed(),
    ensures
        s.advanced(first_ms, first_ack, true).paused == !s.paused,
        s.advanced(first_ms, first_ack, true).advanced(second_ms, second_ack, true).paused
            == s.paused,
{
}

/// A quit key ends the loop in every phase, with the session untouched and no
/// notification.
pub proof fn lemma_quit_ends_loop(s: Session, key: KeyPress, elapsed_ms: u64)
    requires
        command_of(key) == Command::Quit,
    ensures
        s.stepped(Poll::Received(Event::Key(key)), elapsed_ms) == (s, Outcome::Finish),
{
}

} // verus!
