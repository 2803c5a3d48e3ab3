//! Splitting a byte stream into frames at a delimiter.

use vstd::prelude::*;
use crate::text::bytes_eq;

verus! {

/// The needle `n` occurs in `h` at index `i`.
pub open spec fn occurs_at(h: Seq<u8>, n: Seq<u8>, i: int) -> bool {
    0 <= i && i + n.len() <= h.len() && h.subrange(i, i + n.len()) == n
}

/// The index of the first occurrence of `n` in `h`, if any.
pub open spec fn first_occurrence(h: Seq<u8>, n: Seq<u8>, r: Option<usize>) -> bool {
    match r {
        Some(i) => occurs_at(h, n, i as int) && forall|j: int| 0 <= j < i ==> !occurs_at(h, n, j),
        None => forall|j: int| !occurs_at(h, n, j),
    }
}

/// The first index where `needle` occurs in `haystack`.
pub fn find(haystack: &[u8], needle: &[u8]) -> (r: Option<usize>)
    ensures
        first_occurrence(haystack@, needle@, r),
{
    let hl = haystack.len();
    let nl = needle.len();
    if nl > hl {
        return None;
    }
    if nl == 0 {
        assert(haystack@.subrange(0, 0) =~= needle@);
        return Some(0);
    }
    let mut i: usize = 0;
    while i <= hl - nl
        invariant
            1 <= nl <= hl,
            hl == haystack@.len(),
            nl == needle@.len(),
            i <= hl - nl + 1,
            forall|j: int| 0 <= j < i ==> !occurs_at(haystack@, needle@, j),
        decreases hl - nl + 1 - i,
    {
        let window = vstd::slice::slice_subrange(haystack, i, i + nl);
        if bytes_eq(window, needle) {
            return Some(i);
        }
        i = i + 1;
    }
    None
}

/// Where a frame ends in the buffer, and where the next one starts.
#[derive(Debug, Clone, Copy, PartialEq, Eq, Structural)]
pub struct FramingAdvanceResult {
    pub valid_data_end: usize,
    pub next_frame_start: usize,
}

/// Framing failed.
#[derive(Debug, Clone, Copy, PartialEq, Eq, Structural)]
pub struct FramingError;

/// Splits a buffer into frames by a byte sequence delimiter. The cursor is
/// where the search resumes in the growing buffer.
#[derive(Debug)]
pub struct DelimeterFraming {
    needle: Vec<u8>,
    cursor: usize,
}

/// A framing that ends frames at `delim`.
pub fn by_delim(delim: &[u8]) -> (r: DelimeterFraming)
    ensures
        r.spec_needle() == delim@,
        r.spec_cursor() == 0,
{
    DelimeterFraming { needle: vstd::slice::slice_to_vec(delim), cursor: 0 }
}

impl DelimeterFraming {
    pub closed spec fn spec_needle(self) -> Seq<u8> {
        self.needle@
    }

    /// Where the search resumes.
    pub closed spec fn spec_cursor(self) -> usize {
        self.cursor
    }

    pub fn cursor(&self) -> (r: usize)
        ensures
            r == self.spec_cursor(),
    {
        self.cursor
    }

    /// Looks for the delimiter from the cursor on. When found, the frame
    /// ends before it, the next frame starts after it, and the cursor moves
    /// there. When not found, the cursor moves ahead by the buffer length
    /// less the delimiter length (zero if negative).
    pub fn try_framing(&mut self, buffer: &[u8]) -> (r: Result<Option<FramingAdvanceResult>, FramingError>)
        requires
            old(self).spec_cursor() <= buffer@.len(),
            old(self).spec_cursor() + buffer@.len() <= usize::MAX,
        ensures
            final(self).spec_needle() == old(self).spec_needle(),
            ({
                let c = old(self).spec_cursor() as int;
                let n = old(self).spec_needle();
                let rest = buffer@.subrange(c, buffer@.len() as int);
                if exists|j: int| occurs_at(rest, n, j) {
                    r matches Ok(Some(a)) && first_occurrence(rest, n, Some((a.valid_data_end - c) as usize))
                        && a.valid_data_end >= c && a.next_frame_start == a.valid_data_end + n.len()
                        && final(self).spec_cursor() == a.next_frame_start
                } else {
                    r == Ok::<Option<FramingAdvanceResult>, FramingError>(None) && final(self).spec_cursor()
                        == c + if buffer@.len() >= n.len() {
                        buffer@.len() - n.len()
                    } else {
                        0
                    }
                }
            }),
    {
        let len = buffer.len();
        let buf = vstd::slice::slice_subrange(buffer, self.cursor, len);
        let found = find(buf, self.needle.as_slice());
        proof {
            let n = self.needle@;
            let rest = buffer@.subrange(self.cursor as int, len as int);
            assert(buf@ == rest);
            match found {
                Some(pos) => {
                    assert(occurs_at(rest, n, pos as int));
                    assert(exists|j: int| occurs_at(rest, n, j));
                },
                None => {
                    assert(!exists|j: int| occurs_at(buf@, n, j));
                },
            }
        }
        match found {
            Some(pos) => {
                let valid_data_end = self.cursor + pos;
                let next_frame_start = valid_data_end + self.needle.len();
                self.cursor = next_frame_start;
                Ok(Some(FramingAdvanceResult { valid_data_end, next_frame_start }))
            },
            None => {
                self.cursor = self.cursor + len.saturating_sub(self.needle.len());
                Ok(None)
            },
        }
    }

    /// Starts over at the beginning of the (next) buffer.
    pub fn advance(&mut self)
        ensures
            final(self).spec_cursor() == 0,
            final(self).spec_needle() == old(self).spec_needle(),
    {
        self.cursor = 0;
    }

    /// The framing asks for no particular buffer size.
    pub fn next_buffer_size(&self) -> (r: Option<usize>)
        ensures
            r is None,
    {
        None
    }
}

} // verus!
