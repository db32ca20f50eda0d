//! The action interpreter: order, idempotence, and the frame buffer.

use ledstrip::action::{apply, apply_checked, OutOfRange};
use ledstrip::{Action, Color, FrameBuffer};

fn red() -> Color {
    Color::new(0xff, 0, 0)
}

fn pixels(fb: &FrameBuffer) -> Vec<Color> {
    fb.snapshot()
}

#[test]
fn new_buffer_is_all_off() {
    let fb = FrameBuffer::new(5);
    assert_eq!(fb.len(), 5);
    for p in pixels(&fb) {
        assert_eq!(p, Color::off());
    }
}

#[test]
fn on_then_off_applied_in_list_order() {
    let mut fb = FrameBuffer::new(3);
    // Both actions hit the same pixel: the later one must win.
    let actions = vec![
        Action::On { index: 1, color: red() },
        Action::Off { index: 1 },
    ];
    apply(&mut fb, &actions);
    assert_eq!(fb.get(1), Color::off());

    let actions = vec![
        Action::Off { index: 1 },
        Action::On { index: 1, color: red() },
    ];
    apply(&mut fb, &actions);
    assert_eq!(fb.get(1), red());
}

#[test]
fn apply_twice_is_apply_once() {
    let mut once = FrameBuffer::new(6);
    once.set(2, red());
    let mut twice = FrameBuffer::new(6);
    twice.set(2, red());

    let actions = vec![
        Action::Off { index: 2 },
        Action::On { index: 4, color: red() },
    ];
    apply(&mut once, &actions);
    apply(&mut twice, &actions);
    apply(&mut twice, &actions);
    assert_eq!(pixels(&once), pixels(&twice));
}

#[test]
fn moving_pixel_keeps_at_most_one_lit() {
    let mut fb = FrameBuffer::new(4);
    fb.set(0, red());
    // Two consecutive moves: 0 -> 1, then 1 -> 2.
    let first = vec![
        Action::Off { index: 0 },
        Action::On { index: 1, color: red() },
    ];
    let second = vec![
        Action::Off { index: 1 },
        Action::On { index: 2, color: red() },
    ];
    apply(&mut fb, &first);
    let lit: Vec<usize> =
        pixels(&fb).iter().enumerate().filter(|(_, c)| **c != Color::off()).map(|(i, _)| i).collect();
    assert_eq!(lit, vec![1]);
    apply(&mut fb, &second);
    let lit: Vec<usize> =
        pixels(&fb).iter().enumerate().filter(|(_, c)| **c != Color::off()).map(|(i, _)| i).collect();
    assert_eq!(lit, vec![2]);
}

#[test]
fn checked_apply_accepts_in_range_actions() {
    let mut fb = FrameBuffer::new(3);
    let actions = vec![
        Action::Off { index: 0 },
        Action::On { index: 2, color: red() },
    ];
    assert_eq!(apply_checked(&mut fb, &actions), Ok(()));
    assert_eq!(fb.get(2), red());
}

#[test]
fn checked_apply_fails_fast_and_leaves_buffer_untouched() {
    let mut fb = FrameBuffer::new(3);
    fb.set(1, red());
    let actions = vec![
        Action::Off { index: 1 },
        Action::On { index: 3, color: red() }, // first out-of-range action
        Action::On { index: 9, color: red() },
    ];
    assert_eq!(apply_checked(&mut fb, &actions), Err(OutOfRange { at: 1 }));
    // Nothing was applied: pixel 1 still lit, nothing else changed.
    assert_eq!(pixels(&fb), vec![Color::off(), red(), Color::off()]);
}

#[test]
fn set_changes_only_its_pixel() {
    let mut fb = FrameBuffer::new(4);
    fb.set(2, red());
    let ps = pixels(&fb);
    assert_eq!(ps[0], Color::off());
    assert_eq!(ps[1], Color::off());
    assert_eq!(ps[2], red());
    assert_eq!(ps[3], Color::off());
}
