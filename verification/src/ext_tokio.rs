//! Adapters that let a byte stream serve as a frame transport.

use vstd::prelude::*;

verus! {

/// A readable byte stream used as the reading side of a transport.
pub struct ReadAdapter<T>(pub T);

/// A writable byte stream used as the writing side of a transport.
pub struct WriteAdapter<T>(pub T);

impl<T> ReadAdapter<T> {
    /// The adapter around `stream`, on the heap.
    pub fn boxed(stream: T) -> (r: Box<ReadAdapter<T>>)
        ensures
            *r == ReadAdapter(stream),
    {
        Box::new(ReadAdapter(stream))
    }
}

impl<T> WriteAdapter<T> {
    /// The adapter around `stream`, on the heap.
    pub fn boxed(stream: T) -> (r: Box<WriteAdapter<T>>)
        ensures
            *r == WriteAdapter(stream),
    {
        Box::new(WriteAdapter(stream))
    }
}
} // verus!
