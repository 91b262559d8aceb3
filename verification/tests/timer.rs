use hook::timer::Timer;
use hook::timer::TimerMode;
use hook::timer::NANOS_PER_SECOND;

#[test]
fn new_timer_has_not_run() {
    let timer = Timer::new(42, TimerMode::Once);
    assert_eq!(timer.duration, 42);
    assert_eq!(timer.elapsed, 0);
    assert_eq!(timer.mode, TimerMode::Once);
    assert!(!timer.finished());
    assert!(!timer.just_finished());
}

#[test]
fn durations_are_in_nanoseconds() {
    assert_eq!(NANOS_PER_SECOND, 1_000_000_000);
    assert_eq!(Timer::from_seconds(3, TimerMode::Repeating).duration, 3_000_000_000);
    assert_eq!(
        Timer::from_seconds(u32::MAX, TimerMode::Once).duration,
        4_294_967_295_000_000_000
    );
}

#[test]
fn once_timer_finishes_exactly_once() {
    let mut timer = Timer::from_seconds(1, TimerMode::Once);
    timer.tick(400_000_000);
    assert_eq!(timer.elapsed, 400_000_000);
    assert!(!timer.finished());
    assert!(!timer.just_finished());

    timer.tick(700_000_000);
    assert_eq!(timer.elapsed, 1_000_000_000);
    assert!(timer.finished());
    assert!(timer.just_finished());
    assert_eq!(timer.times_finished_this_tick, 1);

    timer.tick(700_000_000);
    assert_eq!(timer.elapsed, 1_000_000_000);
    assert!(timer.finished());
    assert!(!timer.just_finished());
    assert_eq!(timer.times_finished_this_tick, 0);
}

#[test]
fn once_timer_finishes_when_it_reaches_its_duration() {
    let mut timer = Timer::new(10, TimerMode::Once);
    timer.tick(9);
    assert!(!timer.finished());
    timer.tick(1);
    assert!(timer.finished());
    assert!(timer.just_finished());
}

#[test]
fn repeating_timer_keeps_the_overshoot() {
    let mut timer = Timer::from_seconds(3, TimerMode::Repeating);
    timer.tick(2_000_000_000);
    assert!(!timer.just_finished());
    timer.tick(2_000_000_000);
    assert!(timer.just_finished());
    assert!(timer.finished());
    assert_eq!(timer.times_finished_this_tick, 1);
    assert_eq!(timer.elapsed, 1_000_000_000);
    timer.tick(1_000_000_000);
    assert!(!timer.just_finished());
    assert!(!timer.finished());
    assert_eq!(timer.elapsed, 2_000_000_000);
}

#[test]
fn repeating_timer_counts_every_lap_of_a_long_tick() {
    let mut timer = Timer::from_seconds(3, TimerMode::Repeating);
    timer.tick(7_000_000_000);
    assert_eq!(timer.times_finished_this_tick, 2);
    assert_eq!(timer.elapsed, 1_000_000_000);
}

#[test]
fn repeating_timer_caps_the_lap_count() {
    let mut timer = Timer::new(1, TimerMode::Repeating);
    timer.tick(u64::MAX);
    assert_eq!(timer.times_finished_this_tick, u32::MAX);
    assert_eq!(timer.elapsed, 0);
    assert!(timer.finished());
}

#[test]
fn repeating_timer_without_duration_always_finishes() {
    let mut timer = Timer::new(0, TimerMode::Repeating);
    timer.tick(0);
    assert!(timer.just_finished());
    assert_eq!(timer.times_finished_this_tick, u32::MAX);
    assert_eq!(timer.elapsed, 0);
}

#[test]
fn once_timer_without_duration_finishes_on_the_first_tick() {
    let mut timer = Timer::new(0, TimerMode::Once);
    assert!(!timer.finished());
    timer.tick(0);
    assert!(timer.finished());
    assert!(timer.just_finished());
}

#[test]
fn tick_cannot_overflow() {
    let mut timer = Timer {
        duration: u64::MAX,
        elapsed: u64::MAX - 1,
        mode: TimerMode::Repeating,
        finished: false,
        times_finished_this_tick: 0,
    };
    timer.tick(u64::MAX);
    assert_eq!(timer.times_finished_this_tick, 1);
    assert_eq!(timer.elapsed, u64::MAX - 1);

    let mut once = Timer {
        duration: u64::MAX,
        elapsed: u64::MAX - 1,
        mode: TimerMode::Once,
        finished: false,
        times_finished_this_tick: 0,
    };
    once.tick(u64::MAX);
    assert!(once.finished());
    assert_eq!(once.elapsed, u64::MAX);
}
