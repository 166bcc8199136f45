//! The frame queue between the render callback and the consumer.
//!
//! The frames wait in an unbounded lock-free queue. A push never blocks, and
//! the frames leave in the order in which they came.

use crate::frame::Frame;
use crossbeam_queue::SegQueue;
use vstd::prelude::*;

verus! {

/// `crossbeam_queue::SegQueue`, the unbounded queue that holds the frames.
#[verifier::external_type_specification]
#[verifier::external_body]
#[verifier::reject_recursive_types(T)]
pub struct ExSegQueue<T>(SegQueue<T>);

/// The frames that wait in a queue, oldest first.
pub uninterp spec fn queued(queue: &SegQueue<Frame>) -> Seq<Frame>;

/// `SegQueue::new`: a queue in which nothing waits.
#[verifier::external_body]
fn seg_queue_new() -> (queue: SegQueue<Frame>)
    ensures
        queued(&queue) == Seq::<Frame>::empty(),
{
    SegQueue::new()
}

/// `SegQueue::push`: the frame joins the queue behind those that wait.
#[verifier::external_body]
fn seg_queue_push(queue: &mut SegQueue<Frame>, frame: Frame)
    ensures
        queued(final(queue)) == queued(old(queue)).push(frame),
{
    queue.push(frame)
}

/// `SegQueue::pop`: the oldest frame leaves the queue; nothing comes from a
/// queue in which nothing waits.
#[verifier::external_body]
fn seg_queue_pop(queue: &mut SegQueue<Frame>) -> (head: Option<Frame>)
    ensures
        match head {
            Some(frame) => queued(old(queue)).len() > 0 && frame == queued(old(queue))[0]
                && queued(final(queue)) == queued(old(queue)).drop_first(),
            None => queued(old(queue)).len() == 0 && queued(final(queue)) == queued(old(queue)),
        },
{
    queue.pop()
}

/// `SegQueue::is_empty`: whether nothing waits.
#[verifier::external_body]
fn seg_queue_is_empty(queue: &SegQueue<Frame>) -> (empty: bool)
    ensures
        empty == (queued(queue).len() == 0),
{
    queue.is_empty()
}

/// The queue of frames that wait for the consumer.
pub struct FrameQueue {
    frames: SegQueue<Frame>,
}

impl View for FrameQueue {
    type V = Seq<Frame>;

    closed spec fn view(&self) -> Seq<Frame> {
        queued(&self.frames)
    }
}

/// The frames of `frames` that carry data, in their order.
pub open spec fn carrying_data(frames: Seq<Frame>) -> Seq<Frame> {
    frames.filter(|frame: Frame| frame.carries_data())
}

impl FrameQueue {
    /// A queue in which nothing waits.
    pub fn new() -> (queue: Self)
        ensures
            queue@ == Seq::<Frame>::empty(),
    {
        FrameQueue { frames: seg_queue_new() }
    }

    /// Puts a frame behind those that wait.
    pub fn push(&mut self, frame: Frame)
        ensures
            final(self)@ == old(self)@.push(frame),
    {
        seg_queue_push(&mut self.frames, frame);
    }

    /// Takes the oldest frame, if one waits.
    pub fn pop(&mut self) -> (head: Option<Frame>)
        ensures
            match head {
                Some(frame) => old(self)@.len() > 0 && frame == old(self)@[0] && final(self)@ == old(
                    self,
                )@.drop_first(),
                None => old(self)@.len() == 0 && final(self)@ == old(self)@,
            },
    {
        seg_queue_pop(&mut self.frames)
    }

    /// Tells whether a frame waits: the cheap check before a redraw is asked
    /// for.
    pub fn has_pending(&self) -> (pending: bool)
        ensures
            pending == (self@.len() > 0),
    {
        !seg_queue_is_empty(&self.frames)
    }

    /// Takes every frame that waits and hands back, in their order, those
    /// that carry data. The others carry no update and are dropped here.
    pub fn drain(&mut self) -> (frames: Vec<Frame>)
        ensures
            final(self)@ == Seq::<Frame>::empty(),
            frames@ == carrying_data(old(self)@),
    {
        let ghost all = self@;
        let ghost keep = |frame: Frame| frame.carries_data();
        let mut frames: Vec<Frame> = Vec::new();
        let ghost mut taken: int = 0;
        loop
            invariant
                0 <= taken <= all.len(),
                self@ == all.skip(taken),
                frames@ == all.take(taken).filter(keep),
                keep == |frame: Frame| frame.carries_data(),
                all == old(self)@,
            ensures
                taken == all.len(),
                self@ == Seq::<Frame>::empty(),
                frames@ == all.take(taken).filter(keep),
            decreases all.len() - taken,
        {
            match self.pop() {
                Some(frame) => {
                    proof {
                        reveal_with_fuel(Seq::filter, 2);
                        assert(all.take(taken + 1).drop_last() == all.take(taken));
                        assert(all.take(taken + 1).last() == frame);
                        assert(all.skip(taken).drop_first() == all.skip(taken + 1));
                    }
                    if frame.has_data() {
                        frames.push(frame);
                    }
                    proof {
                        taken = taken + 1;
                    }
                },
                None => {
                    break ;
                },
            }
        }
        proof {
            assert(all.take(taken) == all);
        }
        frames
    }
}

impl Default for FrameQueue {
    fn default() -> (queue: Self)
        ensures
            queue@ == Seq::<Frame>::empty(),
    {
        FrameQueue::new()
    }
}

} // verus!
