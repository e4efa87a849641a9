use bevy::time::Timer;
use hello_bevy::span::{Span, NANOS_PER_SEC};
use hello_bevy::timer::GreetTimer;
use std::time::Duration;

fn span_of(time: Duration) -> Span {
    Span::new(time.as_secs(), time.subsec_nanos())
}

#[test]
fn span_keeps_its_parts() {
    let span = Span::new(3, 250_000_000);
    assert_eq!(span.secs, 3);
    assert_eq!(span.nanos, 250_000_000);
    assert_eq!(Span::from_secs(2), Span { secs: 2, nanos: 0 });
    assert_eq!(NANOS_PER_SEC, 1_000_000_000);
}

#[test]
fn new_timer_has_nothing_on_it() {
    let timer = GreetTimer::new(Span::from_secs(2));
    assert_eq!(timer.period, Span { secs: 2, nanos: 0 });
    assert_eq!(timer.elapsed(), Span { secs: 0, nanos: 0 });
    assert_eq!(timer.times_finished, 0);
    assert!(!timer.just_finished());
}

#[test]
fn short_tick_only_adds_time() {
    let mut timer = GreetTimer::new(Span::from_secs(2));
    timer.tick(Span::new(1, 500_000_000));
    assert!(!timer.just_finished());
    assert_eq!(timer.times_finished, 0);
    assert_eq!(timer.elapsed(), Span { secs: 1, nanos: 500_000_000 });
    assert_eq!(timer.period, Span { secs: 2, nanos: 0 });
}

#[test]
fn tick_that_reaches_the_period_finishes_and_keeps_the_rest() {
    let mut timer = GreetTimer::new(Span::from_secs(2));
    timer.tick(Span::new(1, 500_000_000));
    timer.tick(Span::new(1, 0));
    assert!(timer.just_finished());
    assert_eq!(timer.times_finished, 1);
    assert_eq!(timer.elapsed(), Span { secs: 0, nanos: 500_000_000 });
}

#[test]
fn tick_of_exactly_the_period_leaves_nothing() {
    let mut timer = GreetTimer::new(Span::from_secs(2));
    timer.tick(Span::from_secs(2));
    assert!(timer.just_finished());
    assert_eq!(timer.times_finished, 1);
    assert_eq!(timer.elapsed(), Span { secs: 0, nanos: 0 });
}

#[test]
fn finished_flag_lasts_one_tick() {
    let mut timer = GreetTimer::new(Span::from_secs(2));
    timer.tick(Span::from_secs(2));
    assert!(timer.just_finished());
    timer.tick(Span::new(0, 16_000_000));
    assert!(!timer.just_finished());
    assert_eq!(timer.elapsed(), Span { secs: 0, nanos: 16_000_000 });
}

#[test]
fn long_tick_counts_every_period() {
    let mut timer = GreetTimer::new(Span::from_secs(2));
    timer.tick(Span::new(1, 500_000_000));
    timer.tick(Span::from_secs(7));
    assert_eq!(timer.times_finished, 4);
    assert_eq!(timer.elapsed(), Span { secs: 0, nanos: 500_000_000 });
}

#[test]
fn zero_tick_changes_nothing_but_the_flag() {
    let mut timer = GreetTimer::new(Span::from_secs(2));
    timer.tick(Span::from_secs(3));
    assert!(timer.just_finished());
    timer.tick(Span::from_secs(0));
    assert!(!timer.just_finished());
    assert_eq!(timer.elapsed(), Span { secs: 1, nanos: 0 });
}

#[test]
fn periods_are_counted_in_32_bits() {
    let mut timer = GreetTimer::new(Span::new(0, 1));
    timer.tick(Span::new(4, 294_967_301));
    assert_eq!(timer.times_finished, 5);
    assert!(timer.just_finished());
    assert_eq!(timer.elapsed(), Span { secs: 4, nanos: 294_967_296 });
}

#[test]
fn full_count_of_periods_reads_as_not_finished() {
    let mut timer = GreetTimer::new(Span::new(0, 1));
    timer.tick(Span::new(4, 294_967_296));
    assert_eq!(timer.times_finished, 0);
    assert!(!timer.just_finished());
    assert_eq!(timer.elapsed(), Span { secs: 4, nanos: 294_967_296 });
}

#[test]
fn longest_time_fits_on_the_timer() {
    let mut timer = GreetTimer::new(Span::new(u64::MAX, 999_999_999));
    timer.tick(Span::new(u64::MAX, 999_999_998));
    assert!(!timer.just_finished());
    assert_eq!(timer.elapsed(), Span { secs: u64::MAX, nanos: 999_999_998 });
    timer.tick(Span::new(0, 1));
    assert!(timer.just_finished());
    assert_eq!(timer.times_finished, 1);
    assert_eq!(timer.elapsed(), Span { secs: 0, nanos: 0 });
}

#[test]
fn timer_keeps_step_with_the_engine() {
    let mut engine = Timer::new(Duration::from_secs(2), true);
    let mut timer = GreetTimer::new(Span::from_secs(2));
    let frames = [
        Duration::from_millis(16),
        Duration::from_millis(1990),
        Duration::from_nanos(1),
        Duration::from_secs(0),
        Duration::from_millis(5000),
        Duration::from_micros(999_999),
        Duration::from_millis(1),
        Duration::new(1, 999_999_999),
        Duration::from_secs(2),
    ];
    for frame in frames {
        engine.tick(frame);
        timer.tick(span_of(frame));
        assert_eq!(timer.just_finished(), engine.just_finished());
        assert_eq!(timer.times_finished, engine.times_finished_this_tick());
        assert_eq!(timer.elapsed(), span_of(engine.elapsed()));
    }
}

#[test]
fn timer_of_seconds_given_as_a_fraction_has_the_same_period() {
    let engine = Timer::from_seconds(2.0, true);
    let timer = GreetTimer::new(Span::from_secs(2));
    assert_eq!(timer.period, span_of(engine.duration()));
}

#[test]
fn greeting_timer_completes_every_two_seconds() {
    let timer = GreetTimer::every_two_seconds();
    assert_eq!(timer, GreetTimer::new(Span::from_secs(2)));
    assert_eq!(timer.period, Span { secs: 2, nanos: 0 });
}

#[test]
fn span_with_a_full_second_of_nanos_is_not_valid() {
    assert!(Span { secs: 0, nanos: 999_999_999 }.is_valid());
    assert!(!Span { secs: 0, nanos: 1_000_000_000 }.is_valid());
    assert!(!Span { secs: 5, nanos: u32::MAX }.is_valid());
}

#[test]
fn timer_without_a_period_is_not_valid() {
    let zero = Span { secs: 0, nanos: 0 };
    assert!(GreetTimer::every_two_seconds().is_valid());
    assert!(GreetTimer { period: Span { secs: 0, nanos: 1 }, elapsed: zero, times_finished: 0 }.is_valid());
    assert!(!GreetTimer { period: zero, elapsed: zero, times_finished: 0 }.is_valid());
    let crooked = Span { secs: 0, nanos: 1_000_000_000 };
    assert!(!GreetTimer { period: crooked, elapsed: zero, times_finished: 0 }.is_valid());
    assert!(!GreetTimer { period: Span::from_secs(2), elapsed: crooked, times_finished: 0 }.is_valid());
}

#[test]
fn tick_is_refused_only_when_the_time_would_not_fit() {
    let mut timer = GreetTimer::new(Span::new(u64::MAX, 999_999_999));
    assert!(timer.can_tick(Span::new(u64::MAX, 999_999_999)));
    timer.tick(Span::new(0, 1));
    assert!(timer.can_tick(Span::new(u64::MAX, 999_999_998)));
    assert!(!timer.can_tick(Span::new(u64::MAX, 999_999_999)));
    assert!(!timer.can_tick(Span { secs: 0, nanos: 1_000_000_000 }));
    let stopped = GreetTimer { period: Span::from_secs(0), elapsed: Span::from_secs(0), times_finished: 0 };
    assert!(!stopped.can_tick(Span::from_secs(1)));
    assert!(GreetTimer::every_two_seconds().can_tick(Span::new(0, 16_000_000)));
}
