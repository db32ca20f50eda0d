//! The engine and schedule: drift-free deadlines, the end-to-end scenario,
//! and the blink animation.

use ledstrip::engine::{blink_engine, bounce_engine};
use ledstrip::{Color, Direction, Phase, Schedule};

fn blue() -> Color {
    Color::new(0, 0, 0xa0)
}

#[test]
fn deadlines_never_drift() {
    let start = 1_000;
    let period = 1_500_000; // microseconds, as a monotonic timer counts them
    let mut s = Schedule::new(start, period);
    assert_eq!(s.deadline, start);
    for k in 1..=1000u64 {
        // However late within its period the tick actually ran, the next
        // deadline comes from the previous deadline, so the k-th deadline
        // is exactly start + k * period.
        assert!(s.can_advance());
        s.advance();
        assert_eq!(s.deadline, start + k * period);
    }
}

#[test]
fn can_advance_refuses_clock_overflow() {
    let s = Schedule::new(u64::MAX - 5, 10);
    assert!(!s.can_advance());
    let s = Schedule::new(u64::MAX - 20, 10);
    assert!(s.can_advance());
}

#[test]
fn end_to_end_four_pixel_bounce() {
    // N = 4, initial state {index: 0, dir: Up}.
    let n = 4;
    let mut e = bounce_engine(n, blue(), 0, 100);

    // Tick 1 renders all-black except index 0 lit.
    let frame = e.tick();
    assert_eq!(frame.len(), n);
    assert_eq!(frame[0], blue());
    for p in 1..n {
        assert_eq!(frame[p], Color::off());
    }
    assert_eq!(e.state.index, 1);
    assert_eq!(e.schedule.deadline, 100);

    // Tick 2 renders index 1 lit only.
    let frame = e.tick();
    assert_eq!(frame[0], Color::off());
    assert_eq!(frame[1], blue());
    assert_eq!(frame[2], Color::off());
    assert_eq!(frame[3], Color::off());

    // Tick 3 renders index 2; tick 4 reaches index 3 (the end) and flips.
    let frame = e.tick();
    assert_eq!(frame[2], blue());
    let frame = e.tick();
    assert_eq!(frame[3], blue());
    assert_eq!(e.state.index, 2);
    assert!(matches!(e.state.dir, Direction::Down));

    // Tick 5 renders index 2 lit.
    let frame = e.tick();
    assert_eq!(frame[2], blue());
    assert_eq!(frame[0], Color::off());
    assert_eq!(frame[1], Color::off());
    assert_eq!(frame[3], Color::off());
}

#[test]
fn bounce_never_lights_two_pixels() {
    let n = 7;
    let mut e = bounce_engine(n, blue(), 0, 10);
    for _ in 0..50 {
        let frame = e.tick();
        let lit = frame.iter().filter(|c| **c != Color::off()).count();
        assert!(lit <= 1, "at most one pixel may be lit after a full tick");
    }
}

#[test]
fn blink_alternates_whole_strip() {
    // The two-phase animation: all pixels on, then all off, forever.
    let n = 4;
    let mut e = blink_engine(n, blue(), 0, 1_500_000);
    let frame = e.tick();
    // The strip starts dark.
    assert!(frame.iter().all(|c| *c == Color::off()));
    assert!(matches!(e.state, Phase::Lit));
    let frame = e.tick();
    assert!(frame.iter().all(|c| *c == blue()));
    let frame = e.tick();
    assert!(frame.iter().all(|c| *c == Color::off()));
    assert_eq!(frame.len(), n);
}

#[test]
fn tick_reschedules_relative_to_deadline() {
    let mut e = bounce_engine(3, blue(), 40, 25);
    for k in 1..=8u64 {
        e.tick();
        assert_eq!(e.schedule.deadline, 40 + k * 25);
        assert_eq!(e.schedule.ticks, k);
    }
}
