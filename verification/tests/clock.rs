use pompom::clock::MAX_MINUTES;
use pompom::Clock;

#[test]
fn from_minutes_counts_seconds() {
    let clock = Clock::from_minutes(25);
    assert_eq!(clock.total_seconds, 1500);
    assert_eq!(clock.elapsed_seconds, 0);
    assert!(!clock.is_complete());
    assert_eq!(clock.remaining_seconds(), 1500);
}

#[test]
fn the_longest_phase_still_fits() {
    let clock = Clock::from_minutes(MAX_MINUTES);
    assert_eq!(clock.total_seconds, 18446744073709551600);
    assert_eq!(MAX_MINUTES, u64::MAX / 60);
}

#[test]
fn a_phase_too_long_to_count_stops_at_the_largest_count() {
    assert_eq!(Clock::from_minutes(MAX_MINUTES + 1).total_seconds, u64::MAX);
    assert_eq!(Clock::from_minutes(u64::MAX).total_seconds, u64::MAX);
    assert_eq!(Clock::from_minutes(u64::MAX).elapsed_seconds, 0);
    assert_eq!(Clock::from_minutes(u64::MAX).format(), "307445734561825860:15");
}

#[test]
fn tick_adds_up() {
    let mut clock = Clock::from_minutes(25);
    clock.tick(1);
    assert_eq!(clock.elapsed_seconds, 1);
    clock.tick(299);
    assert_eq!(clock.elapsed_seconds, 300);
    assert_eq!(clock.remaining_seconds(), 1200);
    assert_eq!(clock.total_seconds, 1500);
    assert!(!clock.is_complete());
}

#[test]
fn tick_stops_at_the_total() {
    let mut clock = Clock::from_minutes(3);
    clock.tick(179);
    assert!(!clock.is_complete());
    clock.tick(1);
    assert!(clock.is_complete());
    assert_eq!(clock.elapsed_seconds, 180);
    clock.tick(1);
    assert_eq!(clock.elapsed_seconds, 180);
    assert_eq!(clock.remaining_seconds(), 0);
}

#[test]
fn huge_increments_saturate() {
    let mut clock = Clock::from_minutes(1);
    clock.tick(u64::MAX);
    assert_eq!(clock.elapsed_seconds, 60);
    clock.tick(u64::MAX);
    assert_eq!(clock.elapsed_seconds, 60);
    let mut other = Clock::from_minutes(MAX_MINUTES);
    other.tick(u64::MAX - 1);
    other.tick(u64::MAX - 1);
    assert_eq!(other.elapsed_seconds, other.total_seconds);
}

#[test]
fn many_increments_never_pass_the_total() {
    let mut clock = Clock::from_minutes(2);
    let mut last = 0;
    for step in 0..1000u64 {
        clock.tick(step % 7);
        assert!(clock.elapsed_seconds <= clock.total_seconds);
        assert!(clock.elapsed_seconds >= last);
        last = clock.elapsed_seconds;
    }
    assert_eq!(clock.elapsed_seconds, 120);
}

#[test]
fn zero_increment_changes_nothing() {
    let mut clock = Clock::from_minutes(1);
    clock.tick(10);
    clock.tick(0);
    assert_eq!(clock.elapsed_seconds, 10);
}

#[test]
fn a_clock_past_its_total_is_pulled_back() {
    let mut clock = Clock { total_seconds: 10, elapsed_seconds: 50 };
    assert!(clock.is_complete());
    assert_eq!(clock.remaining_seconds(), 0);
    clock.tick(1);
    assert_eq!(clock.elapsed_seconds, 10);
}

#[test]
fn an_empty_phase_is_complete_at_once() {
    let clock = Clock::from_minutes(0);
    assert!(clock.is_complete());
    assert_eq!(clock.remaining_seconds(), 0);
    assert_eq!(clock.format(), "00:00");
}

#[test]
fn the_face_is_padded() {
    let mut clock = Clock::from_minutes(25);
    assert_eq!(clock.format(), "25:00");
    clock.tick(1);
    assert_eq!(clock.format(), "24:59");
    clock.tick(1200);
    assert_eq!(clock.format(), "04:59");
    clock.tick(294);
    assert_eq!(clock.format(), "00:05");
    clock.tick(5);
    assert_eq!(clock.format(), "00:00");
}

#[test]
fn minutes_are_not_folded_into_hours() {
    let mut clock = Clock::from_minutes(125);
    assert_eq!(clock.format(), "125:00");
    clock.tick(61);
    assert_eq!(clock.format(), "123:59");
    let long = Clock::from_minutes(MAX_MINUTES);
    assert_eq!(long.format(), "307445734561825860:00");
}
