//! Wrappers that turn a byte stream into a frame writer or an async reader.

use vstd::prelude::*;

verus! {

/// A byte stream used as a frame writer.
pub struct TokioWriteFrameWrapper<T> {
    pub inner: T,
}

/// Conversion of a writable stream into a frame writer.
pub trait ToWriteFrame<T>: Sized {
    fn to_write_frame(self) -> (r: TokioWriteFrameWrapper<T>);
}

impl<T> ToWriteFrame<T> for T {
    fn to_write_frame(self) -> (r: TokioWriteFrameWrapper<T>)
        ensures
            r.inner == self,
    {
        TokioWriteFrameWrapper { inner: self }
    }
}

/// A byte stream used as an async reader.
pub struct TokioAsyncReadWrapper<T> {
    pub inner: T,
}

/// Conversion of a readable stream into an async reader.
pub trait ToAsyncRead<T>: Sized {
    fn to_async_read(self) -> (r: TokioAsyncReadWrapper<T>);
}

impl<T> ToAsyncRead<T> for T {
    fn to_async_read(self) -> (r: TokioAsyncReadWrapper<T>)
        ensures
            r.inner == self,
    {
        TokioAsyncReadWrapper { inner: self }
    }
}

} // verus!
