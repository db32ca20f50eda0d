//! The bounce effect: triangle wave, range bound, and the state sequence.

use ledstrip::{Bounce, BounceState, Color, Direction, Effect};

fn blue() -> Color {
    Color::new(0, 0, 0xa0)
}

/// Run `k` steps from the initial state on a strip of `n` pixels and return
/// the index after each step.
fn indices(n: usize, k: usize) -> Vec<usize> {
    let effect = Bounce { color: blue() };
    let mut s = BounceState { index: 0, dir: Direction::Up };
    let mut out = Vec::new();
    for _ in 0..k {
        let (next, _) = effect.step(&s, n);
        s = next;
        out.push(s.index);
    }
    out
}

#[test]
fn fifty_leds_triangle_wave() {
    // 0,1,...,49,48,...,1,0,1,... with period 2*(50-1) = 98.
    let n = 50;
    let period = 2 * (n - 1);
    let effect = Bounce { color: blue() };
    let mut s = BounceState { index: 0, dir: Direction::Up };
    for k in 1..=(3 * period) {
        let (next, _) = effect.step(&s, n);
        s = next;
        let m = k % period;
        let expected = if m < n { m } else { period - m };
        assert_eq!(s.index, expected, "index at tick {}", k);
        let climbing = 1 <= m && m <= n - 1;
        assert_eq!(matches!(s.dir, Direction::Up), climbing, "direction at tick {}", k);
    }
}

#[test]
fn first_steps_and_turnarounds() {
    let idx = indices(4, 10);
    // n = 4: up to the end at 3, back to 0, and up again.
    assert_eq!(idx, vec![1, 2, 3, 2, 1, 0, 1, 2, 3, 2]);
}

#[test]
fn index_stays_in_range_for_many_strip_lengths() {
    for n in 2..=12 {
        let period = 2 * (n - 1);
        for &index in indices(n, 5 * period).iter() {
            assert!(index < n, "index {} out of range for n = {}", index, n);
        }
    }
}

#[test]
fn two_pixel_strip_alternates() {
    let idx = indices(2, 6);
    assert_eq!(idx, vec![1, 0, 1, 0, 1, 0]);
}

#[test]
fn one_pixel_strip_toggles_direction_and_stays_put() {
    let effect = Bounce { color: blue() };
    let mut s = BounceState { index: 0, dir: Direction::Up };
    for _ in 0..4 {
        let prev_dir = s.dir;
        let (next, _) = effect.step(&s, 1);
        s = next;
        assert_eq!(s.index, 0);
        assert_ne!(
            matches!(s.dir, Direction::Up),
            matches!(prev_dir, Direction::Up),
            "direction must toggle every tick on a one-pixel strip"
        );
    }
}

#[test]
fn step_actions_are_off_old_then_on_new() {
    let effect = Bounce { color: blue() };
    let s = BounceState { index: 2, dir: Direction::Up };
    let (next, actions) = effect.step(&s, 5);
    assert_eq!(next.index, 3);
    assert_eq!(actions.len(), 2);
    assert!(matches!(actions[0], ledstrip::Action::Off { index: 2 }));
    match actions[1] {
        ledstrip::Action::On { index, color } => {
            assert_eq!(index, 3);
            assert_eq!(color, blue());
        },
        _ => panic!("second action must light the new pixel"),
    }
}
