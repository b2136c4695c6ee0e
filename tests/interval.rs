use pomodoro::display::format_clock;
use pomodoro::interval::Interval;

#[test]
fn from_secs_starts_empty() {
    let i = Interval::from_secs(25 * 60);
    assert_eq!(i.elapsed_ms, 0);
    assert_eq!(i.duration_ms, 1_500_000);
    assert!(!i.has_ended());
    assert_eq!(i.remaining_secs(), 1500);
}

#[test]
fn ends_exactly_at_duration() {
    let mut i = Interval::from_secs(1);
    i.add_elapsed(400);
    assert!(!i.has_ended());
    i.add_elapsed(400);
    assert!(!i.has_ended());
    i.add_elapsed(199);
    assert!(!i.has_ended());
    i.add_elapsed(1);
    assert!(i.has_ended());
    i.add_elapsed(500);
    assert!(i.has_ended());
}

#[test]
fn zero_length_interval_has_ended() {
    let i = Interval::from_secs(0);
    assert!(i.has_ended());
    assert_eq!(i.remaining_secs(), 0);
}

#[test]
fn elapsed_saturates() {
    let mut i = Interval { elapsed_ms: u64::MAX - 5, duration_ms: 10 };
    i.add_elapsed(100);
    assert_eq!(i.elapsed_ms, u64::MAX);
    assert_eq!(i.duration_ms, 10);
}

#[test]
fn remaining_rounds_down_to_whole_seconds() {
    let mut i = Interval::from_secs(2);
    i.add_elapsed(1);
    assert_eq!(i.remaining_secs(), 1);
    assert_eq!(i.to_clock_string(), "00:01");
}

#[test]
fn clock_of_zero_seconds() {
    assert_eq!(format_clock(0), "00:00");
}

#[test]
fn clock_of_ninety_seconds() {
    assert_eq!(format_clock(90), "01:30");
}

#[test]
fn clock_of_long_intervals() {
    assert_eq!(format_clock(25 * 60), "25:00");
    assert_eq!(format_clock(59), "00:59");
    assert_eq!(format_clock(600), "10:00");
    assert_eq!(format_clock(100 * 60 + 5), "100:05");
}

#[test]
fn clock_never_negative_after_overrun() {
    let mut i = Interval::from_secs(1);
    i.add_elapsed(5000);
    assert_eq!(i.remaining_secs(), 0);
    assert_eq!(i.to_clock_string(), "00:00");
}

#[test]
fn clock_of_ninety_seconds_remaining() {
    let mut i = Interval::from_secs(120);
    i.add_elapsed(30_000);
    assert_eq!(i.to_clock_string(), "01:30");
}
