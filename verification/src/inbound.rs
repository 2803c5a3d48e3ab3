//! Inbound messages of the receiver: a received frame with the spans of its
//! method, payload and request id, and the handling of each decoded frame.
//! A request can be answered once: taking its request id turns it into a
//! plain message.

use vstd::prelude::*;
use vstd::string::StringSliceAdditionalSpecFns;
use vstd::utf8::valid_utf8;

use crate::buf::{bytes_as_slice, bytes_clone, bytes_new, bytes_slice, bytes_view};
use crate::codec::{DecodeError, EncodeResponsePayload, InboundFrameType, ResponseError};
use crate::defs::{pack_range, to_req_range, NonZeroRangeType, RangeType};
use crate::codec::EncodeError;
use crate::rpc::{
    encode_payload, make_response, ErrorResponse, PreparedPacket, RequestContext, Response, ResponseData,
    ResponsePayload, TrySendFailure, TrySendMsgError, TrySendResponseError, WriterDirective,
};
use crate::sender::{queued_through, DirectiveChannel};
use crate::text::str_from_utf8;

verus! {

/// The request-id span packed in a word: `begin` in the low and `end` in
/// the high 32 bits; `None` when the high half is zero.
pub open spec fn unpack_range(i: u64) -> Option<(u32, u32)> {
    if (i >> 32u64) == 0 {
        None
    } else {
        Some(((i & 0xffff_ffff) as u32, (i >> 32u64) as u32))
    }
}

/// `[r.0[0], r.0[1])` lies within `len` bytes.
pub open spec fn span_in(r: RangeType, len: int) -> bool {
    r.0[0] <= r.0[1] <= len
}

/// The bytes of `s` within span `r`.
pub open spec fn span_of(s: Seq<u8>, r: RangeType) -> Seq<u8> {
    s.subrange(r.0[0] as int, r.0[1] as int)
}

/// A received frame and the spans of its parts.
pub struct InboundInner {
    buffer: bytes::Bytes,
    method: RangeType,
    payload: RangeType,
    /// Packed request-id span; 0 for a notification or an answered request.
    req_id: u64,
}

/// An inbound message, a notification or a request, from the remote side.
pub struct Inbound<O> {
    owner: O,
    inner: InboundInner,
}

fn copy_range(r: &RangeType) -> (c: RangeType)
    ensures
        c == *r,
{
    *r
}

proof fn lemma_unpack_pack(b: u32, e: u32)
    requires
        e != 0,
    ensures
        unpack_range(pack_range(b, e)) == Some((b, e)),
        pack_range(b, e) != 0,
{
    assert(e != 0 ==> (((b as u64) | ((e as u64) << 32u64)) >> 32u64) != 0) by (bit_vector);
    assert((((b as u64) | ((e as u64) << 32u64)) & 0xffff_ffff) as u32 == b) by (bit_vector);
    assert((((b as u64) | ((e as u64) << 32u64)) >> 32u64) as u32 == e) by (bit_vector);
    assert(e != 0 ==> ((b as u64) | ((e as u64) << 32u64)) != 0) by (bit_vector);
}

proof fn lemma_zero_or_unpacks(i: u64)
    requires
        i == 0 || (i >> 32u64) != 0,
    ensures
        (i != 0) == (unpack_range(i) is Some),
{
    assert(i == 0 ==> (i >> 32u64) == 0) by (bit_vector);
}

impl<O> Inbound<O> {
    #[verifier::type_invariant]
    spec fn wf(self) -> bool {
        let len = bytes_view(self.inner.buffer).len() as int;
        &&& span_in(self.inner.method, len)
        &&& span_in(self.inner.payload, len)
        &&& self.inner.req_id == 0 || (self.inner.req_id >> 32u64) != 0
        &&& unpack_range(self.inner.req_id) matches Some((b, e)) ==> b <= e <= len
        &&& valid_utf8(span_of(bytes_view(self.inner.buffer), self.inner.method))
    }

    /// The received frame.
    pub closed spec fn spec_buffer(self) -> Seq<u8> {
        bytes_view(self.inner.buffer)
    }

    /// The bytes of the method name.
    pub closed spec fn spec_method(self) -> Seq<u8> {
        span_of(bytes_view(self.inner.buffer), self.inner.method)
    }

    /// The bytes of the payload.
    pub closed spec fn spec_payload(self) -> Seq<u8> {
        span_of(bytes_view(self.inner.buffer), self.inner.payload)
    }

    /// The span of the request id while the message is an unanswered request.
    pub closed spec fn spec_req_span(self) -> Option<(u32, u32)> {
        unpack_range(self.inner.req_id)
    }

    pub closed spec fn spec_owner(self) -> O {
        self.owner
    }

    /// Whether the message is still a request that can be answered: false
    /// for a notification and after the request id was taken.
    pub fn is_request(&self) -> (r: bool)
        ensures
            r == self.spec_req_span() is Some,
    {
        proof {
            use_type_invariant(self);
            lemma_zero_or_unpacks(self.inner.req_id);
        }
        self.inner.req_id != 0
    }

    /// The bytes of the request id, while the message is an unanswered
    /// request.
    pub fn request_id(&self) -> (r: Option<&[u8]>)
        ensures
            match self.spec_req_span() {
                Some((b, e)) => r matches Some(s) && s@ == self.spec_buffer().subrange(
                    b as int,
                    e as int,
                ),
                None => r is None,
            },
    {
        proof {
            use_type_invariant(self);
        }
        match to_req_range(self.inner.req_id) {
            Some(range) => {
                let all = bytes_as_slice(&self.inner.buffer);
                let b = range.begin() as usize;
                let e = range.end() as usize;
                Some(vstd::slice::slice_subrange(all, b, e))
            },
            None => None,
        }
    }

    /// The method name, which is valid UTF-8.
    pub fn method(&self) -> (r: &str)
        ensures
            r.spec_bytes() == self.spec_method(),
    {
        proof {
            use_type_invariant(self);
        }
        let all = bytes_as_slice(&self.inner.buffer);
        let m = vstd::slice::slice_subrange(all, self.inner.method.0[0] as usize, self.inner.method.0[1] as usize);
        match str_from_utf8(m) {
            Some(s) => s,
            None => "",
        }
    }

    /// The payload bytes.
    pub fn payload_bytes(&self) -> (r: &[u8])
        ensures
            r@ == self.spec_payload(),
    {
        proof {
            use_type_invariant(self);
        }
        let all = bytes_as_slice(&self.inner.buffer);
        vstd::slice::slice_subrange(all, self.inner.payload.0[0] as usize, self.inner.payload.0[1] as usize)
    }

    /// Takes the request id out: the message is no longer a request. Gives
    /// the id's span, or `None` if the message was not a request.
    pub fn take_request(&mut self) -> (r: Option<NonZeroRangeType>)
        ensures
            match old(self).spec_req_span() {
                Some((b, e)) => r matches Some(x) && x@ == (b, e),
                None => r is None,
            },
            final(self).spec_req_span() is None,
            final(self).spec_buffer() == old(self).spec_buffer(),
            final(self).spec_method() == old(self).spec_method(),
            final(self).spec_payload() == old(self).spec_payload(),
    {
        proof {
            use_type_invariant(&*self);
        }
        let taken = to_req_range(self.inner.req_id);
        proof {
            assert((0u64 >> 32u64) == 0) by (bit_vector);
        }
        self.inner.req_id = 0;
        taken
    }

    /// The bytes of span `range` of the frame.
    pub fn request_id_bytes(&self, range: NonZeroRangeType) -> (r: &[u8])
        requires
            range@.0 <= range@.1 <= self.spec_buffer().len(),
        ensures
            r@ == self.spec_buffer().subrange(range@.0 as int, range@.1 as int),
    {
        let all = bytes_as_slice(&self.inner.buffer);
        vstd::slice::slice_subrange(all, range.begin() as usize, range.end() as usize)
    }

    /// Prepares the response: takes the request id and gives its span with
    /// the payload shape to encode. `None` when the message is not (or no
    /// longer) a request, which can be answered only once.
    pub fn prepare_response<'a, T>(&mut self, result: &'a ResponsePayload<T>) -> (r: Option<
        (NonZeroRangeType, EncodeResponsePayload<'a, T>),
    >)
        ensures
            match old(self).spec_req_span() {
                Some((b, e)) => r matches Some((x, p)) && x@ == (b, e) && b <= e <= old(
                    self,
                ).spec_buffer().len() && p == match result.0 {
                    Ok(obj) => EncodeResponsePayload::Okay(&obj),
                    Err((ResponseError::Unknown, Some(obj))) => EncodeResponsePayload::ErrObjectOnly(
                        &obj,
                    ),
                    Err((errc, Some(obj))) => EncodeResponsePayload::ErrCodeAndObject(errc, &obj),
                    Err((errc, None)) => EncodeResponsePayload::ErrCodeOnly(errc),
                },
                None => r is None,
            },
            final(self).spec_req_span() is None,
            final(self).spec_buffer() == old(self).spec_buffer(),
    {
        proof {
            use_type_invariant(&*self);
        }
        let range = self.take_request();
        match range {
            Some(x) => Some((x, encode_payload(result))),
            None => None,
        }
    }
}

impl<O> Inbound<O> {
    /// Drops the request without answering it: the message is no longer a
    /// request, so no response (not even the "unhandled" one) is sent.
    pub fn drop_request(&mut self)
        ensures
            final(self).spec_req_span() is None,
            final(self).spec_buffer() == old(self).spec_buffer(),
            final(self).spec_method() == old(self).spec_method(),
            final(self).spec_payload() == old(self).spec_payload(),
    {
        let _ = self.take_request();
    }

    /// The received frame as a packet that can be written again, for a
    /// codec identified by `codec_hash`; `None` when the codec has no
    /// identity (zero).
    pub fn clone_reusable_packet<C>(&self, codec_hash: usize) -> (r: Option<PreparedPacket<C>>)
        ensures
            codec_hash == 0 ==> r is None,
            codec_hash != 0 ==> (r matches Some(p) && p.spec_hash() == codec_hash && bytes_view(
                p.spec_data(),
            ) == self.spec_buffer()),
    {
        if codec_hash == 0 {
            None
        } else {
            Some(PreparedPacket::new_unchecked(bytes_clone(&self.inner.buffer), codec_hash))
        }
    }

    /// Answers the request without waiting: `encode` writes the response
    /// frame from the request id bytes and the payload shape, and the frame
    /// is queued to the writer through `tx` (`None` when the writer is
    /// gone). A message that is not (or no longer) a request is refused and
    /// left as it is; otherwise the request id is taken, whatever follows.
    pub fn try_response<T, Ch: DirectiveChannel, F>(
        &mut self,
        tx: Option<&Ch>,
        result: &ResponsePayload<T>,
        encode: F,
    ) -> (r: Result<(), TrySendResponseError>) where
        F: FnOnce(&[u8], EncodeResponsePayload<'_, T>) -> Result<bytes::Bytes, EncodeError>,

        requires
            forall|id: &[u8], p: EncodeResponsePayload<'_, T>| call_requires(encode, (id, p)),
        ensures
            final(self).spec_req_span() is None,
            final(self).spec_buffer() == old(self).spec_buffer(),
            match old(self).spec_req_span() {
                None => r == Err::<(), TrySendResponseError>(TrySendResponseError::InboundNotRequest),
                Some((b, e)) => exists|id: &[u8], res: Result<bytes::Bytes, EncodeError>|
                    #[trigger] call_ensures(encode, (id, encode_payload_spec(*result)), res) && id@
                        == old(self).spec_buffer().subrange(b as int, e as int) && match res {
                        Err(err) => r == Err::<(), TrySendResponseError>(
                            TrySendResponseError::MsgError(TrySendMsgError::EncodeFailed(err)),
                        ),
                        Ok(f) => match tx {
                            None => r == Err::<(), TrySendResponseError>(
                                TrySendResponseError::MsgError(TrySendMsgError::ChannelClosed),
                            ),
                            Some(t) => exists|q: Result<(), TrySendMsgError>|
                                #[trigger] queued_through(*t, WriterDirective::WriteMsg(f), q)
                                    && r == match q {
                                    Ok(()) => Ok::<(), TrySendResponseError>(()),
                                    Err(e) => Err(TrySendResponseError::MsgError(e)),
                                },
                        },
                    },
            },
    {
        let (span, shape) = match self.prepare_response(result) {
            Some(x) => x,
            None => return Err(TrySendResponseError::InboundNotRequest),
        };
        let id = self.request_id_bytes(span);
        let encoded = encode(id, shape);
        let frame = match encoded {
            Ok(f) => f,
            Err(e) => return Err(TrySendResponseError::MsgError(TrySendMsgError::EncodeFailed(e))),
        };
        let tx = match tx {
            Some(t) => t,
            None => return Err(TrySendResponseError::MsgError(TrySendMsgError::ChannelClosed)),
        };
        let d = WriterDirective::WriteMsg(frame);
        let ghost sent_directive = d;
        let sent = tx.try_send(d);
        let queued = match sent {
            Ok(()) => Ok(()),
            Err(TrySendFailure::Full(_)) => Err(TrySendMsgError::ChannelAtCapacity),
            Err(TrySendFailure::Closed(_)) => Err(TrySendMsgError::ChannelClosed),
        };
        proof {
            assert(call_ensures(Ch::try_send, (tx, sent_directive), sent));
            assert(queued_through(*tx, sent_directive, queued));
        }
        match queued {
            Ok(()) => Ok(()),
            Err(e) => Err(TrySendResponseError::MsgError(e)),
        }
    }
}

/// The payload shape that a response payload is encoded as.
pub open spec fn encode_payload_spec<'a, T>(result: ResponsePayload<T>) -> EncodeResponsePayload<'a, T> {
    match result.0 {
        Ok(obj) => EncodeResponsePayload::Okay(&obj),
        Err((ResponseError::Unknown, Some(obj))) => EncodeResponsePayload::ErrObjectOnly(&obj),
        Err((errc, Some(obj))) => EncodeResponsePayload::ErrCodeAndObject(errc, &obj),
        Err((errc, None)) => EncodeResponsePayload::ErrCodeOnly(errc),
    }
}

impl<O: Clone> Inbound<O> {
    /// Moves the message out; what remains is an empty message that is no
    /// request.
    pub fn take(&mut self) -> (r: Inbound<O>)
        ensures
            r.spec_buffer() == old(self).spec_buffer(),
            r.spec_method() == old(self).spec_method(),
            r.spec_payload() == old(self).spec_payload(),
            r.spec_req_span() == old(self).spec_req_span(),
            final(self).spec_buffer() == Seq::<u8>::empty(),
            final(self).spec_req_span() is None,
    {
        proof {
            use_type_invariant(&*self);
        }
        proof {
            assert(span_of(Seq::<u8>::empty(), RangeType([0u32, 0u32])) =~= Seq::<u8>::empty());
            assert((0u64 >> 32u64) == 0) by (bit_vector);
        }
        let mut inner = InboundInner {
            buffer: bytes_new(),
            method: RangeType([0, 0]),
            payload: RangeType([0, 0]),
            req_id: 0,
        };
        core::mem::swap(&mut inner, &mut self.inner);
        let owner = self.owner.clone();
        let InboundInner { buffer, method, payload, req_id } = inner;
        Inbound { owner, inner: InboundInner { buffer, method, payload, req_id } }
    }

    /// A copy of the message. With `take_request` the copy takes over the
    /// request (the message copied from is then no request); without, the copy is no
    /// request.
    pub fn clone_message(&mut self, take_request: bool) -> (r: Inbound<O>)
        ensures
            r.spec_buffer() == old(self).spec_buffer(),
            r.spec_method() == old(self).spec_method(),
            r.spec_payload() == old(self).spec_payload(),
            r.spec_req_span() == if take_request {
                old(self).spec_req_span()
            } else {
                None
            },
            final(self).spec_buffer() == old(self).spec_buffer(),
            final(self).spec_req_span() == if take_request {
                None
            } else {
                old(self).spec_req_span()
            },
    {
        proof {
            use_type_invariant(&*self);
        }
        proof {
            assert((0u64 >> 32u64) == 0) by (bit_vector);
        }
        let req_id = if take_request {
            let old_id = self.inner.req_id;
            self.inner.req_id = 0;
            old_id
        } else {
            proof {
                assert((0u64 >> 32u64) == 0) by (bit_vector);
            }
            0
        };
        let buffer = bytes_clone(&self.inner.buffer);
        Inbound {
            owner: self.owner.clone(),
            inner: InboundInner {
                buffer,
                method: copy_range(&self.inner.method),
                payload: copy_range(&self.inner.payload),
                req_id,
            },
        }
    }
}

/// Why receiving an inbound message failed.
pub enum ReceiveError<C> {
    /// The transport reached its end.
    Eof,
    IoError(std::io::Error),
    /// The frame could not be decoded.
    DecodeFailed(DecodeError, bytes::Bytes),
    /// A response arrived that no pending request waits for.
    UnhandledResponse(Result<Response<C>, ErrorResponse<C>>),
    /// The method name is not UTF-8: the frame and the method's span.
    NonUtf8MethodName(bytes::Bytes, core::ops::Range<usize>),
}

/// The spans of a decoded frame lie within its `len` bytes, and a request
/// id span does not end at zero.
pub open spec fn frame_spans_in(f: InboundFrameType, len: int) -> bool {
    match f {
        InboundFrameType::Request { req_id_raw, method, params } => req_id_raw.start
            <= req_id_raw.end <= len && req_id_raw.end != 0 && method.start <= method.end <= len
            && params.start <= params.end <= len,
        InboundFrameType::Notify { method, params } => method.start <= method.end <= len
            && params.start <= params.end <= len,
        InboundFrameType::Response { payload, .. } => payload.start <= payload.end <= len,
    }
}

/// Whether the spans of a decoded frame lie within `len` bytes (see
/// [`frame_spans_in`]); [`handle_inbound_once`] takes only frames that pass.
pub fn frame_spans_ok(f: &InboundFrameType, len: usize) -> (r: bool)
    ensures
        r == frame_spans_in(*f, len as int),
{
    match f {
        InboundFrameType::Request { req_id_raw, method, params } => {
            req_id_raw.start <= req_id_raw.end && (req_id_raw.end as usize) <= len
                && req_id_raw.end != 0 && method.start <= method.end && (method.end as usize) <= len
                && params.start <= params.end && (params.end as usize) <= len
        },
        InboundFrameType::Notify { method, params } => {
            method.start <= method.end && (method.end as usize) <= len && params.start <= params.end
                && (params.end as usize) <= len
        },
        InboundFrameType::Response { payload, .. } => {
            payload.start <= payload.end && (payload.end as usize) <= len
        },
    }
}

/// `res` is the response with `payload` bytes and error code `errc`.
pub open spec fn response_is<C>(
    res: Result<Response<C>, ErrorResponse<C>>,
    codec: C,
    payload: Seq<u8>,
    errc: Option<ResponseError>,
) -> bool {
    match res {
        Ok(r) => errc is None && r.codec == codec && bytes_view(r.payload) == payload,
        Err(e) => errc == Some(e.errc) && e.codec == codec && bytes_view(e.payload) == payload,
    }
}

/// What handling the decoded frame `decoded` of `frame` gives (`r`) and
/// leaves of the pending requests (`before` to `after`); see
/// [`handle_inbound_once`].
pub open spec fn inbound_outcome<O, C>(
    owner: O,
    codec: C,
    frame: bytes::Bytes,
    decoded: Result<InboundFrameType, DecodeError>,
    before: Option<RequestContext<ResponseData>>,
    after: Option<RequestContext<ResponseData>>,
    r: Result<Option<Inbound<O>>, ReceiveError<C>>,
) -> bool {
    match decoded {
        Err(e) => r == Err::<Option<Inbound<O>>, ReceiveError<C>>(
            ReceiveError::DecodeFailed(e, frame),
        ) && after == before,
        Ok(InboundFrameType::Response { req_id, errc, payload }) => {
            let p = bytes_view(frame).subrange(payload.start as int, payload.end as int);
            match before {
                None => after == before && (r matches Err(
                    ReceiveError::UnhandledResponse(res),
                ) && response_is(res, codec, p, errc)),
                Some(ctx) => if ctx@.0.contains_key(req_id@) {
                    r matches Ok(None) && (after matches Some(c) && c@.1 == ctx@.1
                        && c@.0.dom() =~= ctx@.0.dom() && (c@.0[req_id@] matches ResponseData::Ready(
                        b,
                        e,
                    ) && bytes_view(b) == p && e == errc) && forall|k: u64|
                        #[trigger] c@.0.contains_key(k) && k != req_id@ ==> c@.0[k]
                            == ctx@.0[k])
                } else {
                    (after matches Some(c) && c@ == ctx@) && (r matches Err(
                        ReceiveError::UnhandledResponse(res),
                    ) && response_is(res, codec, p, errc))
                },
            }
        },
        Ok(InboundFrameType::Request { req_id_raw, method, params }) => {
            let m = bytes_view(frame).subrange(method.start as int, method.end as int);
            after == before && if valid_utf8(m) {
                r matches Ok(Some(ib)) && ib.spec_buffer() == bytes_view(frame)
                    && ib.spec_method() == m && ib.spec_payload() == bytes_view(
                    frame,
                ).subrange(params.start as int, params.end as int) && ib.spec_req_span()
                    == Some((req_id_raw.start, req_id_raw.end)) && ib.spec_owner() == owner
            } else {
                r matches Err(ReceiveError::NonUtf8MethodName(b, mr)) && b == frame && mr.start
                    == method.start && mr.end == method.end
            }
        },
        Ok(InboundFrameType::Notify { method, params }) => {
            let m = bytes_view(frame).subrange(method.start as int, method.end as int);
            after == before && if valid_utf8(m) {
                r matches Ok(Some(ib)) && ib.spec_buffer() == bytes_view(frame)
                    && ib.spec_method() == m && ib.spec_payload() == bytes_view(
                    frame,
                ).subrange(params.start as int, params.end as int) && ib.spec_req_span()
                    is None && ib.spec_owner() == owner
            } else {
                r matches Err(ReceiveError::NonUtf8MethodName(b, mr)) && b == frame && mr.start
                    == method.start && mr.end == method.end
            }
        },
    }
}

/// Handles one decoded frame. A response is delivered into the slot of its
/// pending request and yields nothing; a response that no request waits for
/// is an error. A request or notification becomes an inbound message when
/// its method name is UTF-8.
pub fn handle_inbound_once<O, C>(
    owner: O,
    codec: C,
    frame: bytes::Bytes,
    decoded: Result<InboundFrameType, DecodeError>,
    reqs: &mut Option<RequestContext<ResponseData>>,
) -> (r: Result<Option<Inbound<O>>, ReceiveError<C>>)
    requires
        decoded matches Ok(f) ==> frame_spans_in(f, bytes_view(frame).len() as int),
    ensures
        inbound_outcome(owner, codec, frame, decoded, *old(reqs), *final(reqs), r),
{
    let frame_type = match decoded {
        Ok(x) => x,
        Err(e) => return Err(ReceiveError::DecodeFailed(e, frame)),
    };
    let (method, params, req_id) = match frame_type {
        InboundFrameType::Request { req_id_raw, method, params } => {
            let span = NonZeroRangeType::new(req_id_raw.start, req_id_raw.end);
            proof {
                lemma_unpack_pack(req_id_raw.start, req_id_raw.end);
            }
            let packed = crate::defs::req_id_to_inner(Some(span));
            (method, params, packed)
        },
        InboundFrameType::Notify { method, params } => {
            proof {
                assert((0u64 >> 32u64) == 0) by (bit_vector);
            }
            (method, params, 0u64)
        },
        InboundFrameType::Response { req_id, errc, payload } => {
            let bytes = bytes_slice(&frame, payload.start as usize, payload.end as usize);
            match reqs {
                None => return Err(ReceiveError::UnhandledResponse(make_response(codec, bytes, errc))),
                Some(ctx) => {
                    match ctx.set_response(req_id, bytes, errc) {
                        Ok(()) => return Ok(None),
                        Err(bytes) => return Err(
                            ReceiveError::UnhandledResponse(make_response(codec, bytes, errc)),
                        ),
                    }
                },
            }
        },
    };
    let all = bytes_as_slice(&frame);
    let mbytes = vstd::slice::slice_subrange(all, method.start as usize, method.end as usize);
    if str_from_utf8(mbytes).is_none() {
        return Err(ReceiveError::NonUtf8MethodName(frame, (method.start as usize)..(method.end as usize)));
    }
    let inner = InboundInner {
        buffer: frame,
        method: RangeType([method.start, method.end]),
        payload: RangeType([params.start, params.end]),
        req_id,
    };
    Ok(Some(Inbound { owner, inner }))
}

/// Handles one decoded frame as [`handle_inbound_once`] does, once its spans
/// were checked against the frame's length: a frame whose spans do not lie
/// within it is not handled (`None`, pending requests untouched).
pub fn handle_inbound_checked<O, C>(
    owner: O,
    codec: C,
    frame: bytes::Bytes,
    decoded: Result<InboundFrameType, DecodeError>,
    reqs: &mut Option<RequestContext<ResponseData>>,
) -> (r: Option<Result<Option<Inbound<O>>, ReceiveError<C>>>)
    ensures
        decoded matches Ok(f) && !frame_spans_in(f, bytes_view(frame).len() as int) ==> r is None
            && *final(reqs) == *old(reqs),
        !(decoded matches Ok(f) && !frame_spans_in(f, bytes_view(frame).len() as int)) ==> (
        r matches Some(x) && inbound_outcome(owner, codec, frame, decoded, *old(reqs), *final(reqs), x)),
{
    let len = bytes_as_slice(&frame).len();
    if let Ok(f) = &decoded {
        if !frame_spans_ok(f, len) {
            return None;
        }
    }
    Some(handle_inbound_once(owner, codec, frame, decoded, reqs))
}

} // verus!
