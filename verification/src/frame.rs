//! The in-memory mirror of the physical strip's desired colours.

use vstd::prelude::*;

use crate::color::{black, Color};

verus! {

/// An ordered sequence of colours, one per physical LED.
///
/// The length is fixed when the buffer is created and never changes
/// afterwards: every mutating method keeps it.
pub struct FrameBuffer {
    pixels: Vec<Color>,
}

impl View for FrameBuffer {
    type V = Seq<Color>;

    closed spec fn view(&self) -> Seq<Color> {
        self.pixels@
    }
}

/// A frame buffer's pixel count fits the machine's address range.
pub proof fn lemma_frame_len_bound(fb: &FrameBuffer)
    ensures
        fb@.len() <= usize::MAX,
{
    assert(fb.pixels.len() == fb.pixels@.len());
}

impl FrameBuffer {
    /// A buffer of `n` pixels, all switched off.
    pub fn new(n: usize) -> (fb: FrameBuffer)
        ensures
            fb@ == Seq::new(n as nat, |i: int| black()),
    {
        let mut pixels: Vec<Color> = Vec::new();
        let mut i: usize = 0;
        while i < n
            invariant
                i <= n,
                pixels@ == Seq::new(i as nat, |j: int| black()),
            decreases n - i,
        {
            pixels.push(Color::off());
            i = i + 1;
            proof {
                assert(pixels@ =~= Seq::new(i as nat, |j: int| black()));
            }
        }
        FrameBuffer { pixels }
    }

    /// The number of pixels.
    pub fn len(&self) -> (n: usize)
        ensures
            n == self@.len(),
    {
        self.pixels.len()
    }

    /// Read one pixel.
    pub fn get(&self, i: usize) -> (c: Color)
        requires
            i < self@.len(),
        ensures
            c == self@[i as int],
    {
        self.pixels[i]
    }

    /// Overwrite one pixel; every other pixel and the length are kept.
    pub fn set(&mut self, i: usize, c: Color)
        requires
            i < old(self)@.len(),
        ensures
            final(self)@ == old(self)@.update(i as int, c),
    {
        self.pixels.set(i, c);
    }

    /// A copy of the whole buffer, for handing to a renderer.
    pub fn snapshot(&self) -> (out: Vec<Color>)
        ensures
            out@ == self@,
    {
        let mut out: Vec<Color> = Vec::new();
        let mut i: usize = 0;
        while i < self.pixels.len()
            invariant
                i <= self.pixels.len(),
                out@ == self.pixels@.take(i as int),
            decreases self.pixels.len() - i,
        {
            out.push(self.pixels[i]);
            i = i + 1;
            proof {
                assert(out@ =~= self.pixels@.take(i as int));
            }
        }
        proof {
            assert(self.pixels@.take(self.pixels@.len() as int) =~= self.pixels@);
        }
        out
    }
}

} // verus!
