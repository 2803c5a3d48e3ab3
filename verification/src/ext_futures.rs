//! Adapters that let a byte stream serve as a frame transport.

use vstd::prelude::*;

verus! {

/// A readable byte stream used as the reading side of a transport.
pub struct ReadAdapter<T>(pub T);

/// A writable byte stream used as the writing side of a transport.
pub struct WriteAdapter<T>(pub T);


} // verus!
