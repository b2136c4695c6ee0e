use pomodoro::config::SessionConfig;
use pomodoro::control::{classify, Command, Event, KeyPress, Outcome, Poll};
use pomodoro::machine::Phase;
use pomodoro::session::Session;

fn session(focus_secs: u64, break_secs: u64, max_pomodoros: u8) -> Session {
    Session::new(SessionConfig { focus_secs, break_secs, max_pomodoros })
}

fn key(c: char) -> Poll {
    Poll::Received(Event::Key(KeyPress::Char(c)))
}

#[test]
fn keys_are_classified() {
    assert_eq!(classify(KeyPress::Char('q')), Command::Quit);
    assert_eq!(classify(KeyPress::Ctrl('c')), Command::Quit);
    assert_eq!(classify(KeyPress::Char('p')), Command::TogglePause);
    assert_eq!(classify(KeyPress::Char('x')), Command::Other);
    assert_eq!(classify(KeyPress::Ctrl('p')), Command::Other);
    assert_eq!(classify(KeyPress::Char('c')), Command::Other);
    assert_eq!(classify(KeyPress::Other), Command::Other);
}

#[test]
fn single_pomodoro_scenario() {
    let mut s = session(1, 1, 1);
    assert_eq!(s.machine.phase, Phase::Focus);
    assert_eq!(s.interval.to_clock_string(), "00:01");
    assert_eq!(s.step(Poll::TimedOut, 500), Outcome::Continue { notify: false });
    assert_eq!(s.machine.phase, Phase::Focus);
    assert_eq!(s.step(Poll::TimedOut, 500), Outcome::Continue { notify: true });
    assert_eq!(s.machine.phase, Phase::Done);
    assert_eq!(s.step(Poll::TimedOut, 500), Outcome::Continue { notify: false });
    assert_eq!(s.step(key('x'), 10), Outcome::Finish);
}

#[test]
fn two_pomodoro_scenario() {
    let mut s = session(1, 1, 2);
    assert_eq!(s.step(Poll::TimedOut, 1000), Outcome::Continue { notify: true });
    assert_eq!(s.machine.phase, Phase::FocusEndedAwaitingAck);
    assert_eq!(s.step(key('a'), 0), Outcome::Continue { notify: false });
    assert_eq!(s.machine.phase, Phase::Break);
    assert_eq!(s.interval.to_clock_string(), "00:01");
    assert_eq!(s.machine.pomodoro_count, 2);
    assert_eq!(s.step(Poll::TimedOut, 1000), Outcome::Continue { notify: true });
    assert_eq!(s.machine.phase, Phase::BreakEndedAwaitingAck);
    assert_eq!(s.step(key(' '), 0), Outcome::Continue { notify: false });
    assert_eq!(s.machine.phase, Phase::Focus);
    assert_eq!(s.machine.break_count, 2);
    assert_eq!(s.step(Poll::TimedOut, 1000), Outcome::Continue { notify: true });
    assert_eq!(s.machine.phase, Phase::Done);
    assert_eq!(s.machine.pomodoro_count, 2);
}

#[test]
fn quit_ends_every_phase_without_side_effects() {
    let mut s = session(1, 1, 2);
    let before = s;
    assert_eq!(s.step(key('q'), 5000), Outcome::Finish);
    assert_eq!(s, before);
    s.step(Poll::TimedOut, 1000);
    assert_eq!(s.machine.phase, Phase::FocusEndedAwaitingAck);
    let before = s;
    assert_eq!(s.step(Poll::Received(Event::Key(KeyPress::Ctrl('c'))), 0), Outcome::Finish);
    assert_eq!(s, before);
    s.step(key('k'), 0);
    s.step(Poll::TimedOut, 1000);
    assert_eq!(s.machine.phase, Phase::BreakEndedAwaitingAck);
    assert_eq!(s.step(key('q'), 0), Outcome::Finish);
    s.step(key('k'), 0);
    s.step(Poll::TimedOut, 1000);
    assert_eq!(s.machine.phase, Phase::Done);
    let before = s;
    assert_eq!(s.step(key('q'), 0), Outcome::Finish);
    assert_eq!(s, before);
}

#[test]
fn closed_queue_is_fatal() {
    let mut s = session(25 * 60, 4 * 60, 4);
    s.step(Poll::TimedOut, 500);
    let before = s;
    assert_eq!(s.step(Poll::Disconnected, 500), Outcome::Fatal);
    assert_eq!(s, before);
}

#[test]
fn pause_key_toggles_only_while_running() {
    let mut s = session(10, 1, 2);
    assert_eq!(s.step(key('p'), 700), Outcome::Continue { notify: false });
    assert!(s.paused);
    assert_eq!(s.interval.elapsed_ms, 0);
    s.step(Poll::TimedOut, 3000);
    assert_eq!(s.interval.elapsed_ms, 0);
    s.step(key('p'), 700);
    assert!(!s.paused);
    assert_eq!(s.interval.elapsed_ms, 700);
    s.step(Poll::TimedOut, 9300);
    assert_eq!(s.machine.phase, Phase::FocusEndedAwaitingAck);
    assert_eq!(s.step(key('p'), 0), Outcome::Continue { notify: false });
    assert!(!s.paused);
    assert_eq!(s.machine.phase, Phase::Break);
}

#[test]
fn other_keys_ignored_while_running() {
    let mut s = session(10, 1, 2);
    assert_eq!(s.step(key('x'), 1000), Outcome::Continue { notify: false });
    assert_eq!(s.machine.phase, Phase::Focus);
    assert!(!s.paused);
    assert_eq!(s.interval.elapsed_ms, 1000);
}
