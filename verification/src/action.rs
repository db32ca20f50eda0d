//! Pixel actions and the interpreter that applies them to a frame buffer.

use vstd::prelude::*;

use crate::color::{black, Color};
use crate::frame::FrameBuffer;

verus! {

/// One requested pixel mutation, produced by an effect tick.
#[derive(Clone, Copy, Debug, PartialEq, Eq, Structural)]
pub enum Action {
    /// Set the pixel at `index` to `color`.
    On { index: usize, color: Color },
    /// Switch the pixel at `index` off.
    Off { index: usize },
}

impl Action {
    /// The pixel an action writes to.
    pub open spec fn target(self) -> int {
        match self {
            Action::On { index, .. } => index as int,
            Action::Off { index } => index as int,
        }
    }

    /// The colour an action writes: `On` writes its colour, `Off` writes black.
    pub open spec fn written(self) -> Color {
        match self {
            Action::On { color, .. } => color,
            Action::Off { .. } => black(),
        }
    }

    /// Whether the action addresses a pixel of a buffer of length `n`.
    pub open spec fn in_range(self, n: nat) -> bool {
        0 <= self.target() < n
    }

    /// The pixel an action writes to.
    pub fn pixel(&self) -> (i: usize)
        ensures
            i as int == self.target(),
    {
        match self {
            Action::On { index, .. } => *index,
            Action::Off { index } => *index,
        }
    }
}

/// The defensive interpreter's error: the action at position `at` of the
/// list addressed a pixel off the strip.
#[derive(Clone, Copy, Debug, PartialEq, Eq, Structural)]
pub struct OutOfRange {
    pub at: usize,
}

/// All actions of a list address pixels of a buffer of length `n`.
pub open spec fn all_in_range(actions: Seq<Action>, n: nat) -> bool {
    forall|i: int| 0 <= i < actions.len() ==> #[trigger] actions[i].in_range(n)
}

/// One action applied to a frame: the target pixel takes the written colour.
pub open spec fn apply_action(frame: Seq<Color>, a: Action) -> Seq<Color> {
    frame.update(a.target(), a.written())
}

/// A whole action list applied in list order (the first action innermost).
pub open spec fn apply_all(frame: Seq<Color>, actions: Seq<Action>) -> Seq<Color>
    decreases actions.len(),
{
    if actions.len() == 0 {
        frame
    } else {
        apply_action(apply_all(frame, actions.drop_last()), actions.last())
    }
}

/// Applying in-range actions never changes the length of the frame.
pub proof fn lemma_apply_all_len(frame: Seq<Color>, actions: Seq<Action>)
    requires
        all_in_range(actions, frame.len() as nat),
    ensures
        apply_all(frame, actions).len() == frame.len(),
    decreases actions.len(),
{
    if actions.len() > 0 {
        assert(actions.last().in_range(frame.len() as nat));
        assert(all_in_range(actions.drop_last(), frame.len() as nat));
        lemma_apply_all_len(frame, actions.drop_last());
    }
}

/// The colour the last action writing to pixel `p` leaves there, if any.
pub open spec fn last_write(actions: Seq<Action>, p: int) -> Option<Color>
    decreases actions.len(),
{
    if actions.len() == 0 {
        None
    } else if actions.last().target() == p {
        Some(actions.last().written())
    } else {
        last_write(actions.drop_last(), p)
    }
}

/// Pointwise description of the interpreter: a pixel holds the colour of the
/// last action that wrote to it, and is untouched where no action did.
pub proof fn lemma_apply_all_pointwise(frame: Seq<Color>, actions: Seq<Action>, p: int)
    requires
        0 <= p < frame.len(),
        all_in_range(actions, frame.len() as nat),
    ensures
        apply_all(frame, actions)[p] == match last_write(actions, p) {
            Some(c) => c,
            None => frame[p],
        },
    decreases actions.len(),
{
    lemma_apply_all_len(frame, actions);
    if actions.len() > 0 {
        assert(actions.last().in_range(frame.len() as nat));
        assert(all_in_range(actions.drop_last(), frame.len() as nat));
        lemma_apply_all_len(frame, actions.drop_last());
        lemma_apply_all_pointwise(frame, actions.drop_last(), p);
    }
}

/// Rendering is idempotent: an action list only writes fixed colours to fixed
/// pixels, so applying the same list twice leaves the same frame as applying
/// it once.
pub proof fn lemma_apply_all_idempotent(frame: Seq<Color>, actions: Seq<Action>)
    requires
        all_in_range(actions, frame.len() as nat),
    ensures
        apply_all(apply_all(frame, actions), actions) == apply_all(frame, actions),
{
    let once = apply_all(frame, actions);
    let twice = apply_all(once, actions);
    lemma_apply_all_len(frame, actions);
    lemma_apply_all_len(once, actions);
    assert forall|p: int| 0 <= p < frame.len() implies twice[p] == once[p] by {
        lemma_apply_all_pointwise(frame, actions, p);
        lemma_apply_all_pointwise(once, actions, p);
    }
    assert(twice =~= once);
}

/// Apply an action list to the frame buffer, strictly in list order.
pub fn apply(frame: &mut FrameBuffer, actions: &Vec<Action>)
    requires
        all_in_range(actions@, old(frame)@.len() as nat),
    ensures
        final(frame)@ == apply_all(old(frame)@, actions@),
{
    let ghost orig = frame@;
    let mut i: usize = 0;
    while i < actions.len()
        invariant
            i <= actions@.len(),
            all_in_range(actions@, orig.len() as nat),
            frame@ == apply_all(orig, actions@.take(i as int)),
        decreases actions@.len() - i,
    {
        proof {
            assert(all_in_range(actions@.take(i as int), orig.len() as nat));
            lemma_apply_all_len(orig, actions@.take(i as int));
            assert(actions@[i as int].in_range(orig.len() as nat));
        }
        let a = actions[i];
        match a {
            Action::On { index, color } => {
                frame.set(index, color);
            },
            Action::Off { index } => {
                frame.set(index, Color::off());
            },
        }
        i = i + 1;
        proof {
            assert(actions@.take(i as int).drop_last() =~= actions@.take(i - 1));
            assert(actions@.take(i as int).last() == actions@[i - 1]);
        }
    }
    proof {
        assert(actions@.take(actions@.len() as int) =~= actions@);
    }
}

/// The defensive interpreter: validate the whole list first, and apply it
/// only when every action is on the strip. A malformed list is a programmer
/// error; it is reported at the first offending action, with the buffer
/// untouched rather than corrupted.
pub fn apply_checked(frame: &mut FrameBuffer, actions: &Vec<Action>) -> (r: Result<
    (),
    OutOfRange,
>)
    ensures
        r is Ok <==> all_in_range(actions@, old(frame)@.len() as nat),
        r is Ok ==> final(frame)@ == apply_all(old(frame)@, actions@),
        r matches Err(e) ==> {
            &&& final(frame)@ == old(frame)@
            &&& e.at < actions@.len()
            &&& !actions@[e.at as int].in_range(old(frame)@.len() as nat)
            &&& forall|j: int|
                0 <= j < e.at ==> #[trigger] actions@[j].in_range(old(frame)@.len() as nat)
        },
{
    let n = frame.len();
    let mut i: usize = 0;
    while i < actions.len()
        invariant
            i <= actions@.len(),
            n == frame@.len(),
            forall|j: int| 0 <= j < i ==> #[trigger] actions@[j].in_range(n as nat),
        decreases actions@.len() - i,
    {
        if actions[i].pixel() >= n {
            proof {
                // The action at `i` is the witness that the list is not
                // wholly in range.
                assert(!actions@[i as int].in_range(n as nat));
            }
            return Err(OutOfRange { at: i });
        }
        i = i + 1;
    }
    apply(frame, actions);
    Ok(())
}

} // verus!
