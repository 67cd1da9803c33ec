use snake::{MovementClock, FRAME_DURATION};

#[test]
fn the_threshold_is_75_milliseconds() {
    assert_eq!(FRAME_DURATION, 75);
}

#[test]
fn a_new_clock_stands_at_zero() {
    assert_eq!(MovementClock::new().frame_time(), 0);
}

#[test]
fn the_threshold_itself_brings_no_step() {
    let mut clock = MovementClock::new();
    assert!(!clock.advance(75));
    assert_eq!(clock.frame_time(), 75);
}

#[test]
fn one_millisecond_more_brings_a_step() {
    let mut clock = MovementClock::new();
    assert!(clock.advance(76));
    assert_eq!(clock.frame_time(), 0);

    let mut clock = MovementClock::new();
    assert!(!clock.advance(75));
    assert!(clock.advance(1));
    assert_eq!(clock.frame_time(), 0);
}

#[test]
fn frames_add_up() {
    let mut clock = MovementClock::new();
    assert!(!clock.advance(16));
    assert!(!clock.advance(17));
    assert!(!clock.advance(17));
    assert!(!clock.advance(16));
    assert_eq!(clock.frame_time(), 66);
    assert!(clock.advance(17));
    assert_eq!(clock.frame_time(), 0);
}

#[test]
fn what_went_beyond_the_threshold_is_dropped() {
    let mut clock = MovementClock::new();
    assert!(!clock.advance(40));
    assert!(clock.advance(60));
    assert_eq!(clock.frame_time(), 0);
    assert!(!clock.advance(40));
    assert_eq!(clock.frame_time(), 40);
}

#[test]
fn a_long_frame_brings_one_step() {
    let mut clock = MovementClock::new();
    assert!(clock.advance(10_000));
    assert_eq!(clock.frame_time(), 0);
    assert!(!clock.advance(0));
    assert_eq!(clock.frame_time(), 0);

    let mut clock = MovementClock::new();
    assert!(!clock.advance(75));
    assert!(clock.advance(u32::MAX));
    assert_eq!(clock.frame_time(), 0);
}

#[test]
fn an_empty_frame_changes_nothing() {
    let mut clock = MovementClock::new();
    assert!(!clock.advance(30));
    assert!(!clock.advance(0));
    assert_eq!(clock.frame_time(), 30);
}

#[test]
fn asking_whether_a_step_is_due_changes_nothing() {
    let mut clock = MovementClock::new();
    assert!(!clock.is_due(75));
    assert!(clock.is_due(76));
    assert!(clock.is_due(u32::MAX));
    assert_eq!(clock.frame_time(), 0);
    assert!(!clock.advance(50));
    assert!(!clock.is_due(25));
    assert!(clock.is_due(26));
    assert_eq!(clock.frame_time(), 50);
}
