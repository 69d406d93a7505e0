//! From the blocks a decoder yields to the frames an output device takes.
//!
//! A decoder hands out audio a block at a time, each channel's samples in a
//! list of its own. The device takes one frame at a time, a sample of each
//! channel side by side.

use crate::frame::SampleFrame;
use vstd::prelude::*;

verus! {

/// The frames of a block, given its two channels: the frame at each
/// position is the pair of the samples at that position. Samples that one
/// channel has beyond the end of the other make no frame.
pub open spec fn paired(left: Seq<i16>, right: Seq<i16>) -> Seq<SampleFrame> {
    Seq::new(
        if left.len() <= right.len() {
            left.len()
        } else {
            right.len()
        },
        |i: int| SampleFrame { left: left[i], right: right[i] },
    )
}

/// Pairs the samples of two channels into frames.
pub fn interleave(left: &Vec<i16>, right: &Vec<i16>) -> (frames: Vec<SampleFrame>)
    ensures
        frames@ == paired(left@, right@),
{
    let count = if left.len() <= right.len() {
        left.len()
    } else {
        right.len()
    };
    let mut frames: Vec<SampleFrame> = Vec::new();
    let mut i: usize = 0;
    while i < count
        invariant
            i <= count,
            count <= left.len(),
            count <= right.len(),
            frames@.len() == i,
            forall|j: int|
                0 <= j < i ==> frames@[j] == (SampleFrame { left: left@[j], right: right@[j] }),
        decreases count - i,
    {
        frames.push(SampleFrame { left: left[i], right: right[i] });
        i += 1;
    }
    assert(frames@ =~= paired(left@, right@));
    frames
}

/// The frames of one block, handed out one at a time.
pub struct FrameBuffer {
    frames: Vec<SampleFrame>,
    next: usize,
}

impl View for FrameBuffer {
    type V = Seq<SampleFrame>;

    /// The frames that are still to be handed out, in order.
    closed spec fn view(&self) -> Seq<SampleFrame> {
        self.frames@.skip(self.next as int)
    }
}

impl FrameBuffer {
    #[verifier::type_invariant]
    spec fn cursor_in_range(self) -> bool {
        self.next <= self.frames@.len()
    }

    /// A buffer with nothing in it.
    pub fn new() -> (buffer: Self)
        ensures
            buffer@ == Seq::<SampleFrame>::empty(),
    {
        let buffer = FrameBuffer { frames: Vec::new(), next: 0 };
        assert(buffer@ =~= Seq::<SampleFrame>::empty());
        buffer
    }

    /// A buffer that holds the frames of one block.
    pub fn of_block(frames: Vec<SampleFrame>) -> (buffer: Self)
        ensures
            buffer@ == frames@,
    {
        let buffer = FrameBuffer { frames, next: 0 };
        assert(buffer@ =~= frames@);
        buffer
    }

    /// Whether every frame has been handed out.
    pub fn is_empty(&self) -> (empty: bool)
        ensures
            empty == (self@.len() == 0),
    {
        proof {
            use_type_invariant(self);
        }
        self.next >= self.frames.len()
    }

    /// Hands out the next frame, or `None` where the block is used up.
    pub fn pop(&mut self) -> (frame: Option<SampleFrame>)
        ensures
            old(self)@.len() == 0 ==> frame is None && final(self)@ == old(self)@,
            old(self)@.len() > 0 ==> frame == Some(old(self)@.first()) && final(self)@ == old(
                self,
            )@.drop_first(),
    {
        proof {
            use_type_invariant(&*self);
        }
        if self.next < self.frames.len() {
            let frame = self.frames[self.next];
            self.next = self.next + 1;
            assert(self@ =~= old(self)@.drop_first());
            Some(frame)
        } else {
            None
        }
    }
}

} // verus!
