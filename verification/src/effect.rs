//! Effects: pure transition functions from a state to a new state and a
//! list of pixel actions.

use vstd::prelude::*;

use crate::action::{all_in_range, Action};
use crate::color::Color;

verus! {

/// The direction the bouncing pixel is moving in.
#[derive(Clone, Copy, Debug, PartialEq, Eq, Structural)]
pub enum Direction {
    Up,
    Down,
}

/// The state of the bouncing-pixel effect: the lit pixel and the direction
/// of travel.
#[derive(Clone, Copy, Debug, PartialEq, Eq, Structural)]
pub struct BounceState {
    pub index: usize,
    pub dir: Direction,
}

/// An animation effect over a strip of `n` pixels.
///
/// `step` is pure: it owns no hardware state and sees no clock. The runtime
/// calls it once per tick and applies the returned actions to the frame
/// buffer, so every action must address a pixel of the strip.
pub trait Effect: Sized {
    /// The effect-specific state, replaced wholesale each tick.
    type State;

    /// Which states are meaningful on a strip of `n` pixels.
    spec fn valid(&self, s: Self::State, n: nat) -> bool;

    /// The state `step` returns.
    spec fn next_state(&self, s: Self::State, n: nat) -> Self::State;

    /// The action list `step` returns.
    spec fn actions(&self, s: Self::State, n: nat) -> Seq<Action>;

    /// One tick of the animation: the next state and the pixel actions to
    /// apply before the next render.
    fn step(&self, s: &Self::State, n: usize) -> (r: (Self::State, Vec<Action>))
        requires
            n >= 1,
            self.valid(*s, n as nat),
        ensures
            self.valid(r.0, n as nat),
            r.0 == self.next_state(*s, n as nat),
            r.1@ == self.actions(*s, n as nat),
            all_in_range(self.actions(*s, n as nat), n as nat),
    ;
}

/// The direction after one bounce tick. The flip rule checks the start of
/// the strip first: at index 0 a downward state turns up; otherwise at the
/// last index an upward state turns down; anywhere else the direction is
/// kept. On a one-pixel strip, where start and end coincide, this precedence
/// makes the direction toggle every tick.
pub open spec fn bounce_dir(s: BounceState, n: nat) -> Direction {
    if s.index == 0 && s.dir == Direction::Down {
        Direction::Up
    } else if s.index + 1 == n && s.dir == Direction::Up {
        Direction::Down
    } else {
        s.dir
    }
}

/// The pixel after one bounce tick: one step along the (possibly flipped)
/// direction. The boundary guards only matter on a one-pixel strip; for
/// `n >= 2` the flip rule already keeps the step inside the strip
/// (`lemma_bounce_moves_one`).
pub open spec fn bounce_index(s: BounceState, n: nat) -> int {
    if bounce_dir(s, n) == Direction::Up {
        if s.index + 1 < n {
            s.index + 1
        } else {
            s.index as int
        }
    } else {
        if s.index > 0 {
            s.index - 1
        } else {
            0
        }
    }
}

/// One whole bounce tick on the state.
pub open spec fn bounce_next(s: BounceState, n: nat) -> BounceState {
    BounceState { index: bounce_index(s, n) as usize, dir: bounce_dir(s, n) }
}

/// The bounce tick keeps the pixel on the strip: from a valid state the new
/// index is again within `[0, n)`.
pub proof fn lemma_bounce_in_range(s: BounceState, n: nat)
    requires
        1 <= n <= usize::MAX,
        s.index < n,
    ensures
        bounce_next(s, n).index < n,
{
}

/// For a strip of at least two pixels the guards in `bounce_index` never
/// engage: the new index is exactly one step along the new direction.
pub proof fn lemma_bounce_moves_one(s: BounceState, n: nat)
    requires
        2 <= n <= usize::MAX,
        s.index < n,
    ensures
        bounce_dir(s, n) == Direction::Up ==> bounce_next(s, n).index == s.index + 1,
        bounce_dir(s, n) == Direction::Down ==> bounce_next(s, n).index == s.index - 1,
{
}

/// The state the bounce animation starts in: pixel 0, moving up.
pub open spec fn initial_bounce_state() -> BounceState {
    BounceState { index: 0, dir: Direction::Up }
}

/// The bounce state after `k` ticks from the initial state.
pub open spec fn nth_bounce_state(n: nat, k: nat) -> BounceState
    decreases k,
{
    if k == 0 {
        initial_bounce_state()
    } else {
        bounce_next(nth_bounce_state(n, (k - 1) as nat), n)
    }
}

/// The period of the bounce on a strip of `n >= 2` pixels: up the strip and
/// back is `2 * (n - 1)` ticks.
pub open spec fn wave_period(n: nat) -> nat {
    (2 * (n - 1)) as nat
}

/// The index of a triangle wave at tick `k`: up from 0 to `n - 1`, back
/// down to 0, and over again.
pub open spec fn triangle_index(n: nat, k: nat) -> int {
    let m = k % wave_period(n);
    if m < n {
        m as int
    } else {
        2 * (n - 1) - m
    }
}

/// Whether the wave is climbing at tick `k`: it just moved up, or has not
/// moved at all yet.
pub open spec fn climbing(n: nat, k: nat) -> bool {
    k == 0 || (1 <= k % wave_period(n) <= n - 1)
}

/// How `k % d` follows from `(k - 1) % d`: it is one more, except that it
/// wraps to 0 where one more would reach `d`.
proof fn lemma_mod_succ(k: nat, d: nat)
    requires
        d >= 2,
        k >= 1,
    ensures
        (k - 1) % (d as int) + 1 == d ==> k % d == 0,
        (k - 1) % (d as int) + 1 < d ==> k % d == (k - 1) % (d as int) + 1,
{
    let m = (k - 1) % (d as int);
    vstd::arithmetic::div_mod::lemma_mod_bound((k - 1) as int, d as int);
    vstd::arithmetic::div_mod::lemma_add_mod_noop((k - 1) as int, 1, d as int);
    vstd::arithmetic::div_mod::lemma_small_mod(1, d);
    if m + 1 == d {
        vstd::arithmetic::div_mod::lemma_mod_self_0(d as int);
    } else {
        vstd::arithmetic::div_mod::lemma_small_mod((m + 1) as nat, d);
    }
}

/// However many ticks the bounce animation runs, the lit pixel stays on the
/// strip: every reachable index is within `[0, n)`.
pub proof fn lemma_nth_bounce_in_range(n: nat, k: nat)
    requires
        1 <= n <= usize::MAX,
    ensures
        nth_bounce_state(n, k).index < n,
    decreases k,
{
    if k > 0 {
        let j = (k - 1) as nat;
        lemma_nth_bounce_in_range(n, j);
        lemma_bounce_in_range(nth_bounce_state(n, j), n);
    }
}

/// The bounce animation is a triangle wave: after `k` ticks the lit pixel is
/// at `triangle_index(n, k)`, and the direction is `Up` exactly while the
/// wave climbs.
pub proof fn lemma_triangle_wave(n: nat, k: nat)
    requires
        2 <= n <= usize::MAX,
    ensures
        nth_bounce_state(n, k).index == triangle_index(n, k),
        (nth_bounce_state(n, k).dir == Direction::Up) == climbing(n, k),
    decreases k,
{
    let d = wave_period(n);
    vstd::arithmetic::div_mod::lemma_mod_bound(k as int, d as int);
    if k == 0 {
        vstd::arithmetic::div_mod::lemma_small_mod(0, d);
    } else {
        let j = (k - 1) as nat;
        lemma_triangle_wave(n, j);
        lemma_mod_succ(k, d);
        vstd::arithmetic::div_mod::lemma_mod_bound(j as int, d as int);
        let m = j % d;
        let s = nth_bounce_state(n, j);
        if m == 0 {
            // At pixel 0; whatever the direction, the next tick moves up.
            assert(k % d == 1);
        } else if m <= n - 2 {
            // Climbing strictly inside the strip.
            assert(k % d == m + 1);
        } else if m == n - 1 {
            // At the top end: flip to Down and step back.
            if n == 2 {
                assert(m + 1 == d);
            } else {
                assert(k % d == m + 1);
            }
        } else if m < d - 1 {
            // Descending strictly inside the strip.
            assert(k % d == m + 1);
        } else {
            // One tick before the wrap: the wave reaches pixel 0 again.
            assert(m == d - 1);
            assert(k % d == 0);
        }
    }
}

/// A single pixel bouncing between the two ends of the strip, lit in a
/// fixed colour.
pub struct Bounce {
    pub color: Color,
}

impl Effect for Bounce {
    type State = BounceState;

    /// The lit pixel lies on the strip.
    open spec fn valid(&self, s: BounceState, n: nat) -> bool {
        s.index < n
    }

    open spec fn next_state(&self, s: BounceState, n: nat) -> BounceState {
        bounce_next(s, n)
    }

    /// Switch the old pixel off, then the new one on.
    open spec fn actions(&self, s: BounceState, n: nat) -> Seq<Action> {
        seq![
            Action::Off { index: s.index },
            Action::On { index: bounce_next(s, n).index, color: self.color },
        ]
    }

    fn step(&self, s: &BounceState, n: usize) -> (r: (BounceState, Vec<Action>)) {
        let dir = if s.index == 0 && matches!(s.dir, Direction::Down) {
            Direction::Up
        } else if s.index + 1 == n && matches!(s.dir, Direction::Up) {
            Direction::Down
        } else {
            s.dir
        };
        let index = match dir {
            Direction::Up => if s.index + 1 < n {
                s.index + 1
            } else {
                s.index
            },
            Direction::Down => if s.index > 0 {
                s.index - 1
            } else {
                s.index
            },
        };
        let next = BounceState { index, dir };
        let mut actions: Vec<Action> = Vec::new();
        actions.push(Action::Off { index: s.index });
        actions.push(Action::On { index, color: self.color });
        proof {
            assert(actions@ =~= self.actions(*s, n as nat));
        }
        (next, actions)
    }
}

} // verus!
