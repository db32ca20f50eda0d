//! The scheduled-effect runtime: one effect, one frame buffer, one periodic
//! deadline track.

use vstd::prelude::*;

use crate::action::{apply, apply_all, lemma_apply_all_len, Action};
use crate::blink::{Blink, Phase};
use crate::color::{black, Color};
use crate::effect::{bounce_next, initial_bounce_state, Bounce, BounceState, Direction, Effect};
use crate::frame::FrameBuffer;
use crate::schedule::Schedule;

verus! {

/// The whole runtime state of one animation: the effect and its state, the
/// frame buffer mirroring the strip, and the deadline track.
///
/// The caller owns the renderer and the clock. Per tick it renders the
/// buffer `tick` hands out, then sleeps until `schedule.deadline`.
///
/// The frame buffer and the deadline track have exactly one owner — this
/// struct — and `tick` takes `&mut self`, so one tick at a time has
/// exclusive access to them and runs to completion before the next.
pub struct Engine<E: Effect> {
    pub effect: E,
    pub state: E::State,
    pub frame: FrameBuffer,
    pub schedule: Schedule,
}

impl<E: Effect> Engine<E> {
    /// The number of pixels on the strip.
    pub open spec fn n(self) -> nat {
        self.frame@.len()
    }

    /// The strip is non-empty, the effect state is meaningful for it, and
    /// the deadline track is drift-free.
    pub open spec fn wf(self) -> bool {
        &&& self.n() >= 1
        &&& self.effect.valid(self.state, self.n())
        &&& self.schedule.wf()
    }

    /// Assemble a runtime from parts the caller initialized.
    pub fn new(effect: E, state: E::State, frame: FrameBuffer, schedule: Schedule) -> (e:
        Engine<E>)
        requires
            frame@.len() >= 1,
            effect.valid(state, frame@.len()),
            schedule.wf(),
        ensures
            e == (Engine::<E> { effect, state, frame, schedule }),
            e.wf(),
    {
        Engine { effect, state, frame, schedule }
    }

    /// One tick of the runtime, in the order the renderer sees it:
    /// the returned snapshot is the frame to render now; the actions of the
    /// effect's step are applied to the buffer for the *next* render; the
    /// state is replaced wholesale; and the next deadline is this tick's
    /// deadline plus the period.
    ///
    /// The caller must have checked `schedule.can_advance()` first; a tick
    /// that cannot be rescheduled is fatal to the animation.
    pub fn tick(&mut self) -> (out: Vec<Color>)
        requires
            old(self).wf(),
            old(self).schedule.deadline + old(self).schedule.period <= u64::MAX,
            old(self).schedule.ticks < u64::MAX,
        ensures
            final(self).wf(),
            final(self).n() == old(self).n(),
            out@ == old(self).frame@,
            final(self).effect == old(self).effect,
            final(self).state == old(self).effect.next_state(old(self).state, old(self).n()),
            final(self).frame@ == apply_all(
                old(self).frame@,
                old(self).effect.actions(old(self).state, old(self).n()),
            ),
            final(self).schedule.start == old(self).schedule.start,
            final(self).schedule.period == old(self).schedule.period,
            final(self).schedule.ticks == old(self).schedule.ticks + 1,
            final(self).schedule.deadline == old(self).schedule.deadline
                + old(self).schedule.period,
    {
        let out = self.frame.snapshot();
        let n = self.frame.len();
        let (next, actions) = self.effect.step(&self.state, n);
        apply(&mut self.frame, &actions);
        self.state = next;
        self.schedule.advance();
        proof {
            lemma_apply_all_len(
                old(self).frame@,
                old(self).effect.actions(old(self).state, old(self).n()),
            );
        }
        out
    }
}

/// A ready-to-run bounce animation: pixel 0 lit in `color`, every other
/// pixel off, the pixel moving up, and the first deadline at `start`.
pub fn bounce_engine(n: usize, color: Color, start: u64, period: u64) -> (e: Engine<Bounce>)
    requires
        n >= 1,
    ensures
        e.wf(),
        e.effect == (Bounce { color }),
        e.state == initial_bounce_state(),
        e.frame@ == Seq::new(n as nat, |i: int| if i == 0 { color } else { black() }),
        e.schedule == (Schedule { start, period, ticks: 0, deadline: start }),
        lit_only_at(e.frame@, 0),
{
    let mut frame = FrameBuffer::new(n);
    frame.set(0, color);
    proof {
        assert(frame@ =~= Seq::new(n as nat, |i: int| if i == 0 { color } else { black() }));
    }
    let schedule = Schedule::new(start, period);
    Engine::new(Bounce { color }, BounceState { index: 0, dir: Direction::Up }, frame, schedule)
}

/// A ready-to-run blink animation: the strip dark, about to light whole in
/// `color` on the first tick, with the first deadline at `start`.
pub fn blink_engine(n: usize, color: Color, start: u64, period: u64) -> (e: Engine<Blink>)
    requires
        n >= 1,
    ensures
        e.wf(),
        e.effect == (Blink { color }),
        e.state == Phase::Dark,
        e.frame@ == Seq::new(n as nat, |i: int| black()),
        e.schedule == (Schedule { start, period, ticks: 0, deadline: start }),
{
    let frame = FrameBuffer::new(n);
    let schedule = Schedule::new(start, period);
    Engine::new(Blink { color }, Phase::Dark, frame, schedule)
}

/// All pixels of a frame other than pixel `i` are off.
pub open spec fn lit_only_at(frame: Seq<Color>, i: int) -> bool {
    forall|p: int| 0 <= p < frame.len() && p != i ==> frame[p] == black()
}

/// The bouncing pixel lights at most one pixel: if before a tick every pixel
/// but the state's was off, then after its actions are applied every pixel
/// but the new state's is off, and the new pixel holds the effect's colour.
pub proof fn lemma_bounce_single_pixel(frame: Seq<Color>, s: BounceState, n: nat, c: Color)
    requires
        frame.len() == n,
        1 <= n <= usize::MAX,
        s.index < n,
        lit_only_at(frame, s.index as int),
    ensures
        lit_only_at(
            apply_all(frame, (Bounce { color: c }).actions(s, n)),
            bounce_next(s, n).index as int,
        ),
        apply_all(frame, (Bounce { color: c }).actions(s, n))[bounce_next(s, n).index as int]
            == c,
{
    crate::effect::lemma_bounce_in_range(s, n);
    let acts = (Bounce { color: c }).actions(s, n);
    let off = Action::Off { index: s.index };
    let on = Action::On { index: bounce_next(s, n).index, color: c };
    assert(acts.drop_last() =~= seq![off]);
    assert(acts.drop_last().drop_last() =~= Seq::<Action>::empty());
    let f0 = apply_all(frame, acts.drop_last().drop_last());
    assert(f0 == frame);
    let f1 = apply_all(frame, acts.drop_last());
    assert(f1 == frame.update(s.index as int, black()));
    let f2 = apply_all(frame, acts);
    assert(f2 == f1.update(bounce_next(s, n).index as int, c));
}

/// One full tick of the bouncing effect keeps the single-pixel shape of the
/// frame: never more than one lit pixel once the tick's actions are applied.
pub proof fn lemma_tick_keeps_single_pixel(pre: Engine<Bounce>, post: Engine<Bounce>)
    requires
        pre.wf(),
        lit_only_at(pre.frame@, pre.state.index as int),
        post.state == pre.effect.next_state(pre.state, pre.n()),
        post.frame@ == apply_all(pre.frame@, pre.effect.actions(pre.state, pre.n())),
    ensures
        lit_only_at(post.frame@, post.state.index as int),
        post.frame@[post.state.index as int] == pre.effect.color,
{
    crate::frame::lemma_frame_len_bound(&pre.frame);
    lemma_bounce_single_pixel(pre.frame@, pre.state, pre.n(), pre.effect.color);
}

} // verus!
