//! The postcard-based raw protocol: each frame is a postcard-encoded [`Head`]
//! followed by the postcard-encoded body. Request ids travel as their eight
//! little-endian bytes.
//!
//! Postcard encoding and decoding of [`Head`] and of bodies is done outside
//! this library; what a decoded head means is decided here.

use vstd::prelude::*;

use crate::codec::{
    error_code, error_of_code, DecodeError, EncodeError, EncodeResponsePayload, InboundFrameType,
    ResponseError,
};
use crate::defs::{RequestId, SizeType};

verus! {

/// The raw-rpc codec.
#[derive(Clone, Copy, Debug)]
pub struct Codec;

/// The head of a raw-rpc frame.
pub enum Head<'a> {
    /// (Method)
    Notify(&'a str),
    /// (Request ID, Method)
    Request(&'a [u8], &'a str),
    /// (Request ID)
    Response(&'a [u8]),
    /// (Request ID, Error Code); the payload carries no error object.
    ResponseErr(&'a [u8], u8),
}

/// The eight little-endian bytes of `v`.
pub open spec fn le64(v: u64) -> Seq<u8> {
    seq![
        (v & 0xff) as u8,
        ((v >> 8u64) & 0xff) as u8,
        ((v >> 16u64) & 0xff) as u8,
        ((v >> 24u64) & 0xff) as u8,
        ((v >> 32u64) & 0xff) as u8,
        ((v >> 40u64) & 0xff) as u8,
        ((v >> 48u64) & 0xff) as u8,
        (v >> 56u64) as u8,
    ]
}

/// The value of the first eight bytes of `b`, little-endian.
pub open spec fn le64_value(b: Seq<u8>) -> u64 {
    (b[0] as u64) | ((b[1] as u64) << 8u64) | ((b[2] as u64) << 16u64) | ((b[3] as u64) << 24u64)
        | ((b[4] as u64) << 32u64) | ((b[5] as u64) << 40u64) | ((b[6] as u64) << 48u64) | ((
    b[7] as u64) << 56u64)
}

/// The request id that raw id bytes denote: the little-endian value of their
/// first eight bytes, when there are eight and the value is not zero.
pub open spec fn spec_id_from_bytes(b: Seq<u8>) -> Option<u64> {
    if b.len() >= 8 && le64_value(b) != 0 {
        Some(le64_value(b))
    } else {
        None
    }
}

/// The bytes a request id is sent as.
pub fn id_to_bytes(id: RequestId) -> (r: [u8; 8])
    ensures
        r@ == le64(id@),
{
    let v = id.value();
    let r = [
        (v & 0xff) as u8,
        ((v >> 8u64) & 0xff) as u8,
        ((v >> 16u64) & 0xff) as u8,
        ((v >> 24u64) & 0xff) as u8,
        ((v >> 32u64) & 0xff) as u8,
        ((v >> 40u64) & 0xff) as u8,
        ((v >> 48u64) & 0xff) as u8,
        (v >> 56u64) as u8,
    ];
    assert(r@ =~= le64(v));
    r
}

/// The request id that raw id bytes denote.
pub fn id_from_bytes(bytes: &[u8]) -> (r: Option<RequestId>)
    ensures
        match spec_id_from_bytes(bytes@) {
            Some(v) => r matches Some(id) && id@ == v,
            None => r is None,
        },
{
    if bytes.len() < 8 {
        return None;
    }
    let v = (bytes[0] as u64) | ((bytes[1] as u64) << 8u64) | ((bytes[2] as u64) << 16u64) | ((
    bytes[3] as u64) << 24u64) | ((bytes[4] as u64) << 32u64) | ((bytes[5] as u64) << 40u64) | ((
    bytes[6] as u64) << 48u64) | ((bytes[7] as u64) << 56u64);
    RequestId::from_value(v)
}

/// The bytes a request id is sent as read back as the same id.
pub proof fn lemma_id_bytes_roundtrip(v: u64)
    requires
        v != 0,
    ensures
        spec_id_from_bytes(le64(v)) == Some(v),
{
    let b = le64(v);
    let (b0, b1, b2, b3, b4, b5, b6, b7) = (b[0], b[1], b[2], b[3], b[4], b[5], b[6], b[7]);
    assert((b0 as u64) | ((b1 as u64) << 8u64) | ((b2 as u64) << 16u64) | ((b3 as u64) << 24u64)
        | ((b4 as u64) << 32u64) | ((b5 as u64) << 40u64) | ((b6 as u64) << 48u64) | ((b7 as u64)
        << 56u64) == v) by (bit_vector)
        requires
            b0 == (v & 0xff) as u8,
            b1 == ((v >> 8u64) & 0xff) as u8,
            b2 == ((v >> 16u64) & 0xff) as u8,
            b3 == ((v >> 24u64) & 0xff) as u8,
            b4 == ((v >> 32u64) & 0xff) as u8,
            b5 == ((v >> 40u64) & 0xff) as u8,
            b6 == ((v >> 48u64) & 0xff) as u8,
            b7 == (v >> 56u64) as u8,
    ;
}

/// The span `[offset, offset + len)` of a frame of `base_len` bytes.
pub fn range_of(base_len: usize, offset: usize, len: usize) -> (r: core::ops::Range<u32>)
    requires
        offset + len <= base_len <= u32::MAX,
    ensures
        r.start == offset,
        r.end == offset + len,
{
    let offset = offset as u32;
    let len = len as u32;
    offset..(offset + len)
}

/// The spans of the parts of a raw-rpc frame, found by decoding its head.
pub struct HeadSpans {
    pub request_id: core::ops::Range<SizeType>,
    pub method: core::ops::Range<SizeType>,
    pub payload: core::ops::Range<SizeType>,
}

/// What a raw-rpc response carries after its head.
pub enum RawResponse<'a, S> {
    /// `Head::Response` then the result object.
    Okay(&'a S),
    /// `Head::ResponseErr` with the code, then the error object, or the code
    /// itself when there is no object.
    Error(u8, Option<&'a S>),
}

fn copy_span(r: &core::ops::Range<SizeType>) -> (c: core::ops::Range<SizeType>)
    ensures
        c == *r,
{
    r.start..r.end
}

impl Codec {
    /// Restores the request id from its raw bytes.
    pub fn restore_request_id(&self, raw_id: &[u8]) -> (r: Result<RequestId, DecodeError>)
        ensures
            match spec_id_from_bytes(raw_id@) {
                Some(v) => r matches Ok(id) && id@ == v,
                None => r == Err::<RequestId, DecodeError>(DecodeError::InvalidFormat),
            },
    {
        match id_from_bytes(raw_id) {
            Some(id) => Ok(id),
            None => Err(DecodeError::InvalidFormat),
        }
    }

    /// Classifies a frame by its decoded head; `spans` locate the id, the
    /// method and the payload in the frame.
    pub fn decode_head(&self, head: &Head<'_>, spans: &HeadSpans) -> (r: Result<
        InboundFrameType,
        DecodeError,
    >)
        ensures
            match *head {
                Head::Notify(_) => r == Ok::<InboundFrameType, DecodeError>(
                    InboundFrameType::Notify { method: spans.method, params: spans.payload },
                ),
                Head::Request(_, _) => r == Ok::<InboundFrameType, DecodeError>(
                    InboundFrameType::Request {
                        req_id_raw: spans.request_id,
                        method: spans.method,
                        params: spans.payload,
                    },
                ),
                Head::Response(id) => match spec_id_from_bytes(id@) {
                    Some(v) => r matches Ok(InboundFrameType::Response { req_id, errc, payload })
                        && req_id@ == v && errc == None::<ResponseError> && payload == spans.payload,
                    None => r == Err::<InboundFrameType, DecodeError>(DecodeError::InvalidFormat),
                },
                Head::ResponseErr(id, code) => match spec_id_from_bytes(id@) {
                    Some(v) => r matches Ok(InboundFrameType::Response { req_id, errc, payload })
                        && req_id@ == v && errc == Some(error_of_code(code)) && payload
                        == spans.payload,
                    None => r == Err::<InboundFrameType, DecodeError>(DecodeError::InvalidFormat),
                },
            },
    {
        match head {
            Head::Notify(_) => Ok(
                InboundFrameType::Notify {
                    method: copy_span(&spans.method),
                    params: copy_span(&spans.payload),
                },
            ),
            Head::Request(_, _) => Ok(
                InboundFrameType::Request {
                    req_id_raw: copy_span(&spans.request_id),
                    method: copy_span(&spans.method),
                    params: copy_span(&spans.payload),
                },
            ),
            Head::Response(id) => {
                let req_id = self.restore_request_id(id)?;
                Ok(
                    InboundFrameType::Response {
                        req_id,
                        errc: None,
                        payload: copy_span(&spans.payload),
                    },
                )
            },
            Head::ResponseErr(id, code) => {
                let req_id = self.restore_request_id(id)?;
                Ok(
                    InboundFrameType::Response {
                        req_id,
                        errc: Some(ResponseError::from_code(*code)),
                        payload: copy_span(&spans.payload),
                    },
                )
            },
        }
    }

    /// Decides the head fields and body of the response to the request whose
    /// raw id bytes are `request_id_raw`: the id bytes it is sent with and the
    /// result, or the error code with the error object.
    pub fn response_parts<'a, S>(
        &self,
        request_id_raw: &[u8],
        result: EncodeResponsePayload<'a, S>,
    ) -> (r: Result<([u8; 8], RawResponse<'a, S>), EncodeError>)
        ensures
            match spec_id_from_bytes(request_id_raw@) {
                None => r == Err::<([u8; 8], RawResponse<'a, S>), EncodeError>(
                    EncodeError::InvalidRequestId,
                ),
                Some(v) => r matches Ok((idb, body)) && idb@ == le64(v) && body == match result {
                    EncodeResponsePayload::Okay(obj) => RawResponse::Okay(obj),
                    EncodeResponsePayload::ErrCodeOnly(ec) => RawResponse::Error(
                        error_code(ec),
                        None,
                    ),
                    EncodeResponsePayload::ErrObjectOnly(obj) => RawResponse::Error(0, Some(obj)),
                    EncodeResponsePayload::ErrCodeAndObject(ec, obj) => RawResponse::Error(
                        error_code(ec),
                        Some(obj),
                    ),
                },
            },
    {
        let request_id = match self.restore_request_id(request_id_raw) {
            Ok(id) => id,
            Err(_) => return Err(EncodeError::InvalidRequestId),
        };
        let id_bytes = id_to_bytes(request_id);
        let body = match result {
            EncodeResponsePayload::Okay(obj) => RawResponse::Okay(obj),
            EncodeResponsePayload::ErrCodeOnly(ec) => RawResponse::Error(ec.code(), None),
            EncodeResponsePayload::ErrObjectOnly(obj) => RawResponse::Error(
                ResponseError::Unknown.code(),
                Some(obj),
            ),
            EncodeResponsePayload::ErrCodeAndObject(ec, obj) => RawResponse::Error(
                ec.code(),
                Some(obj),
            ),
        };
        Ok((id_bytes, body))
    }
}

} // verus!
