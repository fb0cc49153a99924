//! The queues between the decode loop and the two renderers.

use vstd::prelude::*;
use std::collections::VecDeque;

verus! {

/// What a queue holds and how much it may hold.
pub struct QueueView<T> {
    /// The frames, oldest first.
    pub frames: Seq<T>,
    /// The most frames the queue will take, or `None` where it takes any
    /// number.
    pub capacity: Option<nat>,
}

/// A first-in, first-out queue of frames. A bounded queue refuses a frame
/// rather than grow or drop one: that refusal is what holds the decoder back
/// when a renderer falls behind.
pub struct FrameQueue<T> {
    frames: VecDeque<T>,
    capacity: Option<usize>,
}

impl<T> View for FrameQueue<T> {
    type V = QueueView<T>;

    closed spec fn view(&self) -> QueueView<T> {
        QueueView {
            frames: self.frames@,
            capacity: match self.capacity {
                Some(c) => Some(c as nat),
                None => None,
            },
        }
    }
}

impl<T> QueueView<T> {
    /// A bounded queue never holds more than its capacity.
    pub open spec fn wf(self) -> bool {
        self.capacity matches Some(c) ==> self.frames.len() <= c
    }

    /// Whether the queue would refuse a frame.
    pub open spec fn full(self) -> bool {
        self.capacity matches Some(c) && self.frames.len() >= c
    }

    /// The queue after `frame` was offered to it: behind the others where
    /// there is room, as before where there is none.
    pub open spec fn offer(self, frame: T) -> QueueView<T> {
        if self.full() {
            self
        } else {
            QueueView { frames: self.frames.push(frame), ..self }
        }
    }

    /// The queue after its oldest frame was taken, if it had one.
    pub open spec fn take(self) -> QueueView<T> {
        if self.frames.len() == 0 {
            self
        } else {
            QueueView { frames: self.frames.skip(1), ..self }
        }
    }
}

/// One thing done to a queue.
pub enum QueueStep<T> {
    Offer(T),
    Take,
}

impl<T> QueueView<T> {
    /// The queue after a run of offers and takes, in order.
    pub open spec fn after(self, steps: Seq<QueueStep<T>>) -> QueueView<T>
        decreases steps.len(),
    {
        if steps.len() == 0 {
            self
        } else {
            let next = match steps[0] {
                QueueStep::Offer(frame) => self.offer(frame),
                QueueStep::Take => self.take(),
            };
            next.after(steps.skip(1))
        }
    }
}

/// However fast frames are offered and however slowly they are taken, a
/// bounded queue never holds more than its capacity.
pub proof fn lemma_never_beyond_capacity<T>(q: QueueView<T>, steps: Seq<QueueStep<T>>)
    requires
        q.wf(),
    ensures
        q.after(steps).wf(),
        q.after(steps).capacity == q.capacity,
        q.capacity matches Some(c) ==> q.after(steps).frames.len() <= c,
    decreases steps.len(),
{
    if steps.len() > 0 {
        let next = match steps[0] {
            QueueStep::Offer(frame) => q.offer(frame),
            QueueStep::Take => q.take(),
        };
        lemma_never_beyond_capacity(next, steps.skip(1));
    }
}

/// An offer loses nothing: the frames a queue holds afterwards are those it
/// held before, in their order, with the new frame behind them if and only
/// if it was not handed back.
pub proof fn lemma_offer_is_lossless<T>(q: QueueView<T>, frame: T)
    ensures
        q.full() ==> q.offer(frame).frames == q.frames,
        !q.full() ==> q.offer(frame).frames == q.frames.push(frame),
        q.offer(frame).frames.take(q.frames.len() as int) == q.frames,
{
    assert(q.offer(frame).frames.take(q.frames.len() as int) =~= q.frames);
}

impl<T> FrameQueue<T> {
    /// An empty queue that takes at most `capacity` frames.
    pub fn bounded(capacity: usize) -> (q: Self)
        ensures
            q@.frames == Seq::<T>::empty(),
            q@.capacity == Some(capacity as nat),
            q@.wf(),
    {
        FrameQueue { frames: VecDeque::new(), capacity: Some(capacity) }
    }

    /// An empty queue that takes any number of frames.
    pub fn unbounded() -> (q: Self)
        ensures
            q@.frames == Seq::<T>::empty(),
            q@.capacity == None::<nat>,
            q@.wf(),
    {
        FrameQueue { frames: VecDeque::new(), capacity: None }
    }

    pub fn len(&self) -> (n: usize)
        ensures
            n == self@.frames.len(),
    {
        self.frames.len()
    }

    pub fn is_empty(&self) -> (b: bool)
        ensures
            b == (self@.frames.len() == 0),
    {
        self.frames.len() == 0
    }

    pub fn is_full(&self) -> (b: bool)
        ensures
            b == self@.full(),
    {
        match self.capacity {
            Some(c) => self.frames.len() >= c,
            None => false,
        }
    }

    /// Puts `frame` behind the frames already queued, or hands it back
    /// where the queue is full. Nothing else changes either way.
    pub fn push(&mut self, frame: T) -> (refused: Option<T>)
        requires
            old(self)@.wf(),
        ensures
            final(self)@.wf(),
            final(self)@ == old(self)@.offer(frame),
            refused == (if old(self)@.full() {
                Some(frame)
            } else {
                None
            }),
    {
        if self.is_full() {
            Some(frame)
        } else {
            self.frames.push_back(frame);
            None
        }
    }

    /// Takes the oldest frame, if there is one.
    pub fn pop(&mut self) -> (frame: Option<T>)
        requires
            old(self)@.wf(),
        ensures
            final(self)@.wf(),
            final(self)@ == old(self)@.take(),
            frame == (if old(self)@.frames.len() == 0 {
                None
            } else {
                Some(old(self)@.frames[0])
            }),
    {
        self.frames.pop_front()
    }
}

} // verus!
