//! The two-phase blink effect: the whole strip lit in one colour, then the
//! whole strip dark, alternating tick by tick.
//!
//! This is the degenerate two-state animation; it needs no bookkeeping
//! beyond which phase the strip is in.

use vstd::prelude::*;

use crate::action::{apply_all, last_write, Action};
use crate::color::{black, Color};
use crate::effect::Effect;

verus! {

/// Which phase the strip currently shows.
#[derive(Clone, Copy, Debug, PartialEq, Eq, Structural)]
pub enum Phase {
    /// Every pixel lit in the effect's colour.
    Lit,
    /// Every pixel off.
    Dark,
}

/// The whole strip lit in a fixed colour on one tick, dark on the next.
pub struct Blink {
    pub color: Color,
}

impl Blink {
    /// The colour every pixel takes once the actions of a step from phase
    /// `s` are applied: off when leaving `Lit`, the effect's colour when
    /// leaving `Dark`.
    pub open spec fn next_pixel(self, s: Phase) -> Color {
        if s == Phase::Lit {
            black()
        } else {
            self.color
        }
    }
}

impl Effect for Blink {
    type State = Phase;

    /// Both phases are meaningful on any strip.
    open spec fn valid(&self, s: Phase, n: nat) -> bool {
        true
    }

    /// The phase toggles every tick.
    open spec fn next_state(&self, s: Phase, n: nat) -> Phase {
        if s == Phase::Lit {
            Phase::Dark
        } else {
            Phase::Lit
        }
    }

    /// One action per pixel: all off when leaving `Lit`, all on when
    /// leaving `Dark`.
    open spec fn actions(&self, s: Phase, n: nat) -> Seq<Action> {
        if s == Phase::Lit {
            Seq::new(n, |i: int| Action::Off { index: i as usize })
        } else {
            Seq::new(n, |i: int| Action::On { index: i as usize, color: self.color })
        }
    }

    fn step(&self, s: &Phase, n: usize) -> (r: (Phase, Vec<Action>)) {
        let mut actions: Vec<Action> = Vec::new();
        let mut i: usize = 0;
        match s {
            Phase::Lit => {
                while i < n
                    invariant
                        i <= n,
                        actions@ == Seq::new(i as nat, |j: int| Action::Off { index: j as usize }),
                    decreases n - i,
                {
                    actions.push(Action::Off { index: i });
                    i = i + 1;
                    proof {
                        assert(actions@ =~= Seq::new(
                            i as nat,
                            |j: int| Action::Off { index: j as usize },
                        ));
                    }
                }
                proof {
                    assert(actions@ =~= self.actions(*s, n as nat));
                }
                (Phase::Dark, actions)
            },
            Phase::Dark => {
                let color = self.color;
                while i < n
                    invariant
                        i <= n,
                        actions@ == Seq::new(
                            i as nat,
                            |j: int| Action::On { index: j as usize, color },
                        ),
                        color == self.color,
                    decreases n - i,
                {
                    actions.push(Action::On { index: i, color });
                    i = i + 1;
                    proof {
                        assert(actions@ =~= Seq::new(
                            i as nat,
                            |j: int| Action::On { index: j as usize, color },
                        ));
                    }
                }
                proof {
                    assert(actions@ =~= self.actions(*s, n as nat));
                }
                (Phase::Lit, actions)
            },
        }
    }
}

/// In a list of actions where the action at position `i` targets pixel `i`,
/// the last write to pixel `p` is the action at position `p`.
proof fn lemma_last_write_indexed(actions: Seq<Action>, p: int)
    requires
        forall|i: int| 0 <= i < actions.len() ==> (#[trigger] actions[i]).target() == i,
        0 <= p < actions.len(),
    ensures
        last_write(actions, p) == Some(actions[p].written()),
    decreases actions.len(),
{
    if actions.last().target() != p {
        let rest = actions.drop_last();
        assert(forall|i: int| 0 <= i < rest.len() ==> (#[trigger] rest[i]).target() == i);
        lemma_last_write_indexed(rest, p);
    }
}

/// One blink step repaints the whole strip uniformly: whatever the frame
/// held, after the step's actions every pixel shows the same colour — off
/// when the phase was `Lit`, the effect's colour when it was `Dark`.
pub proof fn lemma_blink_uniform(frame: Seq<Color>, b: Blink, s: Phase, n: nat)
    requires
        frame.len() == n,
        n <= usize::MAX,
    ensures
        apply_all(frame, b.actions(s, n)) =~= Seq::new(n, |i: int| b.next_pixel(s)),
{
    let acts = b.actions(s, n);
    assert(forall|i: int| 0 <= i < acts.len() ==> (#[trigger] acts[i]).target() == i);
    assert(crate::action::all_in_range(acts, n));
    assert forall|p: int| 0 <= p < n implies apply_all(frame, acts)[p] == b.next_pixel(s) by {
        crate::action::lemma_apply_all_pointwise(frame, acts, p);
        lemma_last_write_indexed(acts, p);
    }
    crate::action::lemma_apply_all_len(frame, acts);
}

} // verus!
