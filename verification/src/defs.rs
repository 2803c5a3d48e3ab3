//! Basic value types shared by the protocol modules.

use vstd::prelude::*;

verus! {

/// Size type used for frame offsets; frames never exceed the 32-bit range.
pub type SizeType = u32;

/// Wide size type; holds two packed [`SizeType`] values.
pub type LongSizeType = u64;

/// A half-open `u32` range `[start, end)` of a frame buffer.
#[derive(Clone, Copy, Default)]
pub struct RangeType(pub [SizeType; 2]);

impl RangeType {
    /// The same range as a `usize` range.
    pub fn range(&self) -> (r: core::ops::Range<usize>)
        ensures
            r.start == self.0[0],
            r.end == self.0[1],
    {
        (self.0[0] as usize)..(self.0[1] as usize)
    }
}

impl From<core::ops::Range<SizeType>> for RangeType {
    fn from(range: core::ops::Range<SizeType>) -> (r: RangeType) {
        RangeType([range.start, range.end])
    }
}

impl vstd::std_specs::convert::FromSpecImpl<core::ops::Range<SizeType>> for RangeType {
    open spec fn obeys_from_spec() -> bool {
        true
    }

    open spec fn from_spec(range: core::ops::Range<SizeType>) -> RangeType {
        RangeType([range.start, range.end])
    }
}

/// A `u32` range whose end is never zero.
#[derive(Clone, Copy)]
pub struct NonZeroRangeType(SizeType, SizeType);

impl View for NonZeroRangeType {
    type V = (SizeType, SizeType);

    closed spec fn view(&self) -> (SizeType, SizeType) {
        (self.0, self.1)
    }
}

impl NonZeroRangeType {
    #[verifier::type_invariant]
    spec fn end_nonzero(self) -> bool {
        self.1 != 0
    }

    /// The range `[start, end)`; `end` is non-zero.
    pub fn new(start: SizeType, end: SizeType) -> (r: NonZeroRangeType)
        requires
            end != 0,
        ensures
            r@ == (start, end),
    {
        NonZeroRangeType(start, end)
    }

    pub fn begin(&self) -> (r: SizeType)
        ensures
            r == self@.0,
    {
        self.0
    }

    pub fn end(&self) -> (r: SizeType)
        ensures
            r == self@.1,
            r != 0,
    {
        proof {
            use_type_invariant(self);
        }
        self.1
    }

    /// The same range as a `usize` range.
    pub fn range(&self) -> (r: core::ops::Range<usize>)
        ensures
            r.start == self@.0,
            r.end == self@.1,
    {
        (self.0 as usize)..(self.1 as usize)
    }
}

/// Packs an optional request-id span into one word: `begin` in the low 32
/// bits and `end` in the high 32 bits; `None` packs to 0.
pub fn req_id_to_inner(range: Option<NonZeroRangeType>) -> (r: LongSizeType)
    ensures
        r == match range {
            Some(x) => pack_range(x@.0, x@.1),
            None => 0,
        },
{
    match range {
        Some(x) => {
            let b = x.begin();
            let e = x.end();
            (b as u64) | ((e as u64) << 32u64)
        },
        None => 0,
    }
}

/// The word holding `begin` in its low and `end` in its high 32 bits.
pub open spec fn pack_range(begin: u32, end: u32) -> u64 {
    (begin as u64) | ((end as u64) << 32u64)
}

/// Unpacks a word written by [`req_id_to_inner`]; a zero high half means no
/// request id.
pub fn to_req_range(i: LongSizeType) -> (r: Option<NonZeroRangeType>)
    ensures
        (i >> 32u64) == 0 ==> r is None,
        (i >> 32u64) != 0 ==> (r matches Some(x) && x@ == ((i & 0xffff_ffff) as u32, (i >> 32u64) as u32)),
{
    let begin = (i & 0xffff_ffff) as u32;
    let end = (i >> 32u64) as u32;
    if end != 0 {
        assert((i >> 32u64) as u32 != 0 <==> (i >> 32u64) != 0) by (bit_vector);
        Some(NonZeroRangeType::new(begin, end))
    } else {
        assert((i >> 32u64) as u32 == 0 ==> (i >> 32u64) == 0) by (bit_vector);
        None
    }
}

/// Packing a request-id span and unpacking it gives the span back, and no
/// span packs to the word of "no request id".
pub proof fn lemma_req_range_roundtrip(begin: u32, end: u32)
    requires
        end != 0,
    ensures
        (pack_range(begin, end) >> 32u64) != 0,
        (pack_range(begin, end) & 0xffff_ffff) as u32 == begin,
        (pack_range(begin, end) >> 32u64) as u32 == end,
        (0u64 >> 32u64) == 0,
{
    assert(end != 0 ==> (((begin as u64) | ((end as u64) << 32u64)) >> 32u64) != 0) by (bit_vector);
    assert((((begin as u64) | ((end as u64) << 32u64)) & 0xffff_ffff) as u32 == begin) by (bit_vector);
    assert((((begin as u64) | ((end as u64) << 32u64)) >> 32u64) as u32 == end) by (bit_vector);
    assert((0u64 >> 32u64) == 0) by (bit_vector);
}

/// Unique identifier of an RPC request; never zero.
#[derive(Debug, Clone, Copy, PartialEq, Eq, Structural, PartialOrd, Ord, Hash)]
pub struct RequestId(u64);

impl View for RequestId {
    type V = u64;

    closed spec fn view(&self) -> u64 {
        self.0
    }
}

impl RequestId {
    #[verifier::type_invariant]
    spec fn nonzero(self) -> bool {
        self.0 != 0
    }

    /// The id whose value is `v`.
    pub closed spec fn with_value(v: u64) -> RequestId {
        RequestId(v)
    }

    /// The value of [`RequestId::with_value`] is the given value, and two ids
    /// with the same value are the same id.
    pub proof fn lemma_with_value(v: u64, id: RequestId)
        ensures
            Self::with_value(v)@ == v,
            id@ == v ==> id == Self::with_value(v),
    {
    }

    /// The id with the given non-zero value.
    pub fn new(value: u64) -> (r: RequestId)
        requires
            value != 0,
        ensures
            r@ == value,
    {
        RequestId(value)
    }

    /// The id with the given value; `None` for 0.
    pub fn from_value(value: u64) -> (r: Option<RequestId>)
        ensures
            value == 0 ==> r is None,
            value != 0 ==> (r matches Some(id) && id@ == value),
    {
        if value != 0 {
            Some(RequestId(value))
        } else {
            None
        }
    }

    /// The value of this id; never zero.
    pub fn value(&self) -> (r: u64)
        ensures
            r == self@,
            r != 0,
    {
        proof {
            use_type_invariant(self);
        }
        self.0
    }
}

} // verus!
