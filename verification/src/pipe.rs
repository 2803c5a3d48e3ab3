//! An in-memory frame pipe: a bounded FIFO queue of frames
//! (`crossbeam_queue::ArrayQueue`), a count of free slots, and a closed flag.
//! The writing side checks readiness and sends; the reading side takes
//! frames in the order they were sent.

use vstd::prelude::*;

verus! {

#[verifier::external_type_specification]
#[verifier::external_body]
#[verifier::reject_recursive_types(T)]
pub struct ExArrayQueue<T>(crossbeam_queue::ArrayQueue<T>);

/// The frames a queue holds, oldest first.
pub uninterp spec fn queue_items(q: crossbeam_queue::ArrayQueue<bytes::Bytes>) -> Seq<bytes::Bytes>;

/// The capacity a queue was made with.
pub uninterp spec fn queue_capacity(q: crossbeam_queue::ArrayQueue<bytes::Bytes>) -> nat;

/// `crossbeam_queue::ArrayQueue::new`: an empty queue of `cap` slots. It
/// panics for a zero capacity, and for one whose slots do not fit in memory.
#[verifier::external_body]
fn queue_new(cap: usize) -> (q: crossbeam_queue::ArrayQueue<bytes::Bytes>)
    requires
        0 < cap <= isize::MAX / 64,
    ensures
        queue_items(q) == Seq::<bytes::Bytes>::empty(),
        queue_capacity(q) == cap,
{
    crossbeam_queue::ArrayQueue::new(cap)
}

/// `crossbeam_queue::ArrayQueue::push`: appends `v` unless the queue is
/// full, in which case `v` is handed back.
#[verifier::external_body]
fn queue_push(q: &mut crossbeam_queue::ArrayQueue<bytes::Bytes>, v: bytes::Bytes) -> (r: Result<
    (),
    bytes::Bytes,
>)
    ensures
        queue_capacity(*final(q)) == queue_capacity(*old(q)),
        if queue_items(*old(q)).len() < queue_capacity(*old(q)) {
            r is Ok && queue_items(*final(q)) == queue_items(*old(q)).push(v)
        } else {
            r == Err::<(), bytes::Bytes>(v) && queue_items(*final(q)) == queue_items(*old(q))
        },
{
    q.push(v)
}

/// `crossbeam_queue::ArrayQueue::pop`: removes and gives the oldest frame,
/// or `None` when the queue is empty.
#[verifier::external_body]
fn queue_pop(q: &mut crossbeam_queue::ArrayQueue<bytes::Bytes>) -> (r: Option<bytes::Bytes>)
    ensures
        queue_capacity(*final(q)) == queue_capacity(*old(q)),
        if queue_items(*old(q)).len() > 0 {
            r == Some(queue_items(*old(q))[0]) && queue_items(*final(q)) == queue_items(
                *old(q),
            ).drop_first()
        } else {
            r is None && queue_items(*final(q)) == queue_items(*old(q))
        },
{
    q.pop()
}

/// An in-memory pipe of frames.
pub struct InMemoryPipe {
    queue: crossbeam_queue::ArrayQueue<bytes::Bytes>,
    /// Free slots of the queue.
    semaphore: usize,
    closed: bool,
}

/// Whether the writing side may send.
#[derive(Debug, Clone, Copy, PartialEq, Eq, Structural)]
pub enum SendReadiness {
    /// A slot is free.
    Ready,
    /// The pipe is closed: sending fails with a broken pipe.
    Closed,
    /// Every slot is taken; wait for the reader.
    Full,
}

/// The outcome of a read.
#[derive(Debug)]
pub enum FrameRead {
    Frame(bytes::Bytes),
    /// The pipe is closed and drained.
    Closed,
    /// No frame yet; wait for the writer.
    Pending,
}

impl View for InMemoryPipe {
    /// The frames in the pipe, oldest first; the capacity; whether it is
    /// closed.
    type V = (Seq<bytes::Bytes>, nat, bool);

    closed spec fn view(&self) -> (Seq<bytes::Bytes>, nat, bool) {
        (queue_items(self.queue), queue_capacity(self.queue), self.closed)
    }
}

impl InMemoryPipe {
    #[verifier::type_invariant]
    spec fn inv(self) -> bool {
        &&& self.semaphore + queue_items(self.queue).len() == queue_capacity(self.queue)
        &&& queue_capacity(self.queue) <= isize::MAX / 64
    }

    /// An open, empty pipe of `capacity` frames; the capacity must be
    /// non-zero (and small enough that its slots fit in memory).
    pub fn new(capacity: usize) -> (r: InMemoryPipe)
        requires
            0 < capacity <= isize::MAX / 64,
        ensures
            r@ == (Seq::<bytes::Bytes>::empty(), capacity as nat, false),
    {
        InMemoryPipe { queue: queue_new(capacity), semaphore: capacity, closed: false }
    }

    /// Readiness of the writing side: a closed pipe refuses, otherwise a
    /// free slot makes it ready.
    pub fn poll_ready(&self) -> (r: SendReadiness)
        ensures
            r == if self@.2 {
                SendReadiness::Closed
            } else if self@.0.len() < self@.1 {
                SendReadiness::Ready
            } else {
                SendReadiness::Full
            },
    {
        proof {
            use_type_invariant(self);
        }
        if self.closed {
            SendReadiness::Closed
        } else if self.semaphore > 0 {
            SendReadiness::Ready
        } else {
            SendReadiness::Full
        }
    }

    /// Sends a frame into a free slot (as [`InMemoryPipe::poll_ready`]
    /// reported).
    pub fn start_send(&mut self, item: bytes::Bytes)
        requires
            old(self)@.0.len() < old(self)@.1,
        ensures
            final(self)@ == (old(self)@.0.push(item), old(self)@.1, old(self)@.2),
    {
        let mut this = InMemoryPipe::new(1);
        core::mem::swap(&mut this, self);
        proof {
            use_type_invariant(&this);
        }
        let InMemoryPipe { mut queue, semaphore, closed } = this;
        let pushed = queue_push(&mut queue, item);
        *self = InMemoryPipe { queue, semaphore: semaphore - 1, closed };
        match pushed {
            Ok(()) => {},
            Err(_) => {},
        }
    }

    /// Takes the oldest frame; when none is left, a closed pipe reports its
    /// end and an open one is pending.
    pub fn poll_read_frame(&mut self) -> (r: FrameRead)
        ensures
            old(self)@.0.len() > 0 ==> r == FrameRead::Frame(old(self)@.0[0]) && final(self)@ == (
                old(self)@.0.drop_first(),
                old(self)@.1,
                old(self)@.2,
            ),
            old(self)@.0.len() == 0 ==> final(self)@ == old(self)@ && r == if old(self)@.2 {
                FrameRead::Closed
            } else {
                FrameRead::Pending
            },
    {
        let mut this = InMemoryPipe::new(1);
        core::mem::swap(&mut this, self);
        proof {
            use_type_invariant(&this);
        }
        let InMemoryPipe { mut queue, semaphore, closed } = this;
        let popped = queue_pop(&mut queue);
        match popped {
            Some(msg) => {
                *self = InMemoryPipe { queue, semaphore: semaphore + 1, closed };
                FrameRead::Frame(msg)
            },
            None => {
                *self = InMemoryPipe { queue, semaphore, closed };
                if closed {
                    FrameRead::Closed
                } else {
                    FrameRead::Pending
                }
            },
        }
    }

    /// Closes the pipe (either side going away): no more sends; what was
    /// sent can still be read.
    pub fn close(&mut self)
        ensures
            final(self)@ == (old(self)@.0, old(self)@.1, true),
    {
        proof {
            use_type_invariant(&*self);
        }
        self.closed = true;
    }
}

} // verus!
