use pomodoro::machine::{Phase, StateMachine};

#[test]
fn new_machine_starts_in_focus() {
    let m = StateMachine::new(4);
    assert_eq!(m.phase, Phase::Focus);
    assert_eq!(m.pomodoro_count, 1);
    assert_eq!(m.break_count, 1);
    assert_eq!(m.max_pomodoros, 4);
}

#[test]
fn next_state_walks_a_full_cycle() {
    let mut m = StateMachine::new(2);
    m.next_state();
    assert_eq!(m.phase, Phase::FocusEndedAwaitingAck);
    assert_eq!(m.pomodoro_count, 1);
    m.next_state();
    assert_eq!(m.phase, Phase::Break);
    assert_eq!(m.pomodoro_count, 2);
    assert_eq!(m.break_count, 1);
    m.next_state();
    assert_eq!(m.phase, Phase::BreakEndedAwaitingAck);
    m.next_state();
    assert_eq!(m.phase, Phase::Focus);
    assert_eq!(m.break_count, 2);
    m.next_state();
    assert_eq!(m.phase, Phase::Done);
    m.next_state();
    assert_eq!(m.phase, Phase::Done);
    assert_eq!(m.pomodoro_count, 2);
    assert_eq!(m.break_count, 2);
}

#[test]
fn single_pomodoro_goes_straight_to_done() {
    let mut m = StateMachine::new(1);
    m.next_state();
    assert_eq!(m.phase, Phase::Done);
    assert_eq!(m.pomodoro_count, 1);
}
