//! JSON-RPC 2.0: error-code mapping, request-id text, and the
//! classification of a parsed frame into an [`InboundFrameType`].
//!
//! Turning JSON text into the field spans of [`RawData`], and writing JSON
//! text, is done by `serde_json` outside this library; everything that is
//! decided about a frame is decided here.

use vstd::prelude::*;
use vstd::string::StringSliceAdditionalSpecFns;
use vstd::utf8::valid_utf8;

use crate::ascii::{atoi_u32, atoi_u32_exec, decimal_bytes, itoa_u64, lemma_atoi_itoa};
use crate::codec::{
    error_code, error_of_code, DecodeError, DeserializeError, EncodeError, EncodeResponsePayload,
    InboundFrameType, ResponseError,
};
use crate::defs::{RequestId, SizeType};
use crate::text::str_from_utf8;
use crate::conn::{InboundHeader, ReqId};

verus! {

/// The JSON-RPC codec.
#[derive(Debug, Clone, Copy)]
pub struct Codec;

pub const INVALID_REQUEST: i64 = -32600;
pub const METHOD_NOT_FOUND: i64 = -32601;
pub const INVALID_PARAMS: i64 = -32602;
pub const INTERNAL_ERROR: i64 = -32603;
pub const PARSE_ERROR: i64 = -32700;
/// Offset of the codes that carry a [`ResponseError`] code directly.
pub const INTERNAL_ERROR_OFFSET: i64 = -41000;

/// The JSON-RPC error code that a response error is sent as.
pub open spec fn spec_error_to_errc(ec: ResponseError) -> i64 {
    match ec {
        ResponseError::InvalidArgument => -32602i64,
        ResponseError::MethodNotFound => -32601i64,
        ResponseError::NonUtf8MethodName => -32600i64,
        ResponseError::ParseFailed => -32700i64,
        ResponseError::Unauthorized => -32600i64,
        _ => (error_code(ec) as i64 - 41000) as i64,
    }
}

/// The response error that a received JSON-RPC error code reads as.
pub open spec fn spec_errc_to_error(errc: i64) -> ResponseError {
    if errc == -32600 {
        ResponseError::InvalidArgument
    } else if errc == -32601 {
        ResponseError::MethodNotFound
    } else if errc == -32602 {
        ResponseError::InvalidArgument
    } else if errc == -32700 {
        ResponseError::ParseFailed
    } else if 0 <= errc + 41000 <= 255 {
        error_of_code((errc + 41000) as u8)
    } else {
        ResponseError::Unknown
    }
}

/// Maps a response error to the JSON-RPC error code it is sent as.
pub fn error_to_errc(ec: ResponseError) -> (r: i64)
    ensures
        r == spec_error_to_errc(ec),
{
    match ec {
        ResponseError::InvalidArgument => INVALID_PARAMS,
        ResponseError::MethodNotFound => METHOD_NOT_FOUND,
        ResponseError::NonUtf8MethodName => INVALID_REQUEST,
        ResponseError::ParseFailed => PARSE_ERROR,
        ResponseError::Unauthorized => INVALID_REQUEST,
        ec => ec.code() as i64 + INTERNAL_ERROR_OFFSET,
    }
}

/// Maps a received JSON-RPC error code to a response error. Codes that are
/// not one of the standard codes are read as `INTERNAL_ERROR_OFFSET` plus a
/// [`ResponseError`] code; anything out of that range reads as `Unknown`.
pub fn errc_to_error(errc: i64) -> (r: ResponseError)
    ensures
        r == spec_errc_to_error(errc),
{
    if errc == INVALID_REQUEST {
        ResponseError::InvalidArgument
    } else if errc == METHOD_NOT_FOUND {
        ResponseError::MethodNotFound
    } else if errc == INVALID_PARAMS {
        ResponseError::InvalidArgument
    } else if errc == PARSE_ERROR {
        ResponseError::ParseFailed
    } else {
        match errc.checked_sub(INTERNAL_ERROR_OFFSET) {
            Some(d) => {
                if 0 <= d && d <= 255 {
                    ResponseError::from_code(d as u8)
                } else {
                    ResponseError::Unknown
                }
            },
            None => ResponseError::Unknown,
        }
    }
}

/// A response error sent by this codec reads back as the same error, except
/// `Unauthorized` and `NonUtf8MethodName`, which share the JSON-RPC code of
/// an invalid request and read back as `InvalidArgument`.
pub proof fn lemma_errc_roundtrip(ec: ResponseError)
    ensures
        spec_errc_to_error(spec_error_to_errc(ec)) == match ec {
            ResponseError::Unauthorized | ResponseError::NonUtf8MethodName => ResponseError::InvalidArgument,
            _ => ec,
        },
{
}

/// A received code that is not one of the four standard codes reads as a
/// response error only through the code offset: a code out of its range
/// reads as `Unknown`, and a code that reads as another error is that
/// error's own code plus the offset. So `INTERNAL_ERROR`, which is out of
/// that range, reads as `Unknown`.
pub proof fn lemma_errc_offset_reading(errc: i64)
    ensures
        errc != -32600 && errc != -32601 && errc != -32602 && errc != -32700 && !(0 <= errc + 41000
            <= 255) ==> spec_errc_to_error(errc) == ResponseError::Unknown,
        spec_errc_to_error(errc) != ResponseError::Unknown ==> errc == -32600 || errc == -32601
            || errc == -32602 || errc == -32700 || errc == error_code(spec_errc_to_error(errc)) as i64
            - 41000,
{
}

/// The request id that a JSON-RPC id text denotes: the `u32` that `atoi`
/// reads from its front, when that is not zero.
pub open spec fn spec_req_id_value(text: Seq<u8>) -> Option<u64> {
    match atoi_u32(text) {
        Some(v) => if v != 0 {
            Some(v as u64)
        } else {
            None
        },
        None => None,
    }
}

/// Reads a request id from the text of a JSON-RPC `id`.
pub fn req_id_from_str(s: &str) -> (r: Result<RequestId, DecodeError>)
    ensures
        spec_req_id_value(s.spec_bytes()) matches Some(v) ==> (r matches Ok(id) && id@ == v),
        spec_req_id_value(s.spec_bytes()) is None ==> r == Err::<RequestId, DecodeError>(
            DecodeError::RequestIdRetrievalFailed,
        ),
{
    req_id_from_bytes(s.as_bytes())
}

fn req_id_from_bytes(b: &[u8]) -> (r: Result<RequestId, DecodeError>)
    ensures
        spec_req_id_value(b@) matches Some(v) ==> (r matches Ok(id) && id@ == v),
        spec_req_id_value(b@) is None ==> r == Err::<RequestId, DecodeError>(
            DecodeError::RequestIdRetrievalFailed,
        ),
{
    match atoi_u32_exec(b) {
        Some(v) => match RequestId::from_value(v as u64) {
            Some(id) => Ok(id),
            None => Err(DecodeError::RequestIdRetrievalFailed),
        },
        None => Err(DecodeError::RequestIdRetrievalFailed),
    }
}

/// The text a request id is written as in the `id` field of a request.
pub fn request_id_text(id: RequestId) -> (r: Vec<u8>)
    ensures
        r@ == decimal_bytes(id@ as nat),
{
    itoa_u64(id.value())
}

/// The text written for a request id reads back as the same id, for every
/// id up to `u32::MAX`.
pub proof fn lemma_request_id_text_roundtrip(v: u64)
    requires
        0 < v <= u32::MAX,
    ensures
        spec_req_id_value(decimal_bytes(v as nat)) == Some(v),
{
    lemma_atoi_itoa(v as nat);
}

/// The error object of a parsed frame: its `code` and the span of `data`.
#[derive(Debug)]
pub struct RawErrorObject {
    pub code: Option<i64>,
    pub data: Option<core::ops::Range<SizeType>>,
}

/// The fields of a parsed JSON-RPC frame, as spans of the frame text.
#[derive(Debug)]
pub struct RawData {
    /// The `jsonrpc` field is `"2.0"`.
    pub jsonrpc_is_v2: bool,
    pub method: Option<core::ops::Range<SizeType>>,
    pub params: Option<core::ops::Range<SizeType>>,
    pub result: Option<core::ops::Range<SizeType>>,
    pub error: Option<RawErrorObject>,
    /// Span of the text of the `id` string.
    pub id: Option<core::ops::Range<SizeType>>,
}

/// `r` lies within a frame of `len` bytes.
pub open spec fn span_in(r: core::ops::Range<SizeType>, len: int) -> bool {
    r.start <= r.end <= len
}

fn copy_span(r: &core::ops::Range<SizeType>) -> (c: core::ops::Range<SizeType>)
    ensures
        c == *r,
{
    r.start..r.end
}

impl Codec {
    /// Classifies a parsed frame. A frame with `method` and `params` is a
    /// request when it has an `id` and a notification otherwise; a frame with
    /// `result` and `id` is a successful response; a frame with `error` and
    /// `id` is an error response. Anything else is a parse failure.
    pub fn decode_frame(&self, frame: &[u8], raw: &RawData) -> (r: Result<
        InboundFrameType,
        DecodeError,
    >)
        requires
            raw.id matches Some(id) ==> span_in(id, frame@.len() as int),
        ensures
            !raw.jsonrpc_is_v2 ==> r == Err::<InboundFrameType, DecodeError>(
                DecodeError::UnsupportedProtocol,
            ),
            raw.jsonrpc_is_v2 ==> match (raw.method, raw.params, raw.id) {
                (Some(m), Some(p), Some(i)) => r == Ok::<InboundFrameType, DecodeError>(
                    InboundFrameType::Request { req_id_raw: i, method: m, params: p },
                ),
                (Some(m), Some(p), None) => r == Ok::<InboundFrameType, DecodeError>(
                    InboundFrameType::Notify { method: m, params: p },
                ),
                _ => match (raw.result, raw.error, raw.id) {
                    (Some(res), _, Some(i)) => {
                        let text = frame@.subrange(i.start as int, i.end as int);
                        match spec_req_id_value(text) {
                            Some(v) => r matches Ok(
                                InboundFrameType::Response { req_id, errc, payload },
                            ) && req_id@ == v && errc == None::<ResponseError> && payload == res,
                            None => r == Err::<InboundFrameType, DecodeError>(
                                DecodeError::RequestIdRetrievalFailed,
                            ),
                        }
                    },
                    (None, Some(e), Some(i)) => {
                        let text = frame@.subrange(i.start as int, i.end as int);
                        match spec_req_id_value(text) {
                            Some(v) => r matches Ok(
                                InboundFrameType::Response { req_id, errc, payload },
                            ) && req_id@ == v && errc == Some(
                                spec_errc_to_error(
                                    match e.code {
                                        Some(c) => c,
                                        None => -32603i64,
                                    },
                                ),
                            ) && payload == match e.data {
                                Some(d) => d,
                                None => 0u32..0u32,
                            },
                            None => r == Err::<InboundFrameType, DecodeError>(
                                DecodeError::RequestIdRetrievalFailed,
                            ),
                        }
                    },
                    _ => r == Err::<InboundFrameType, DecodeError>(
                        DecodeError::ParseFailed(DeserializeError),
                    ),
                },
            },
    {
        if !raw.jsonrpc_is_v2 {
            return Err(DecodeError::UnsupportedProtocol);
        }
        if let (Some(m), Some(p)) = (&raw.method, &raw.params) {
            if let Some(i) = &raw.id {
                return Ok(
                    InboundFrameType::Request {
                        req_id_raw: copy_span(i),
                        method: copy_span(m),
                        params: copy_span(p),
                    },
                );
            } else {
                return Ok(InboundFrameType::Notify { method: copy_span(m), params: copy_span(p) });
            }
        }
        if let (Some(res), Some(i)) = (&raw.result, &raw.id) {
            let text = &frame[(i.start as usize)..(i.end as usize)];
            let req_id = req_id_from_bytes(text)?;
            return Ok(InboundFrameType::Response { req_id, errc: None, payload: copy_span(res) });
        }
        if let (Some(e), Some(i)) = (&raw.error, &raw.id) {
            let text = &frame[(i.start as usize)..(i.end as usize)];
            let req_id = req_id_from_bytes(text)?;
            let code = match e.code {
                Some(c) => c,
                None => INTERNAL_ERROR,
            };
            let payload = match &e.data {
                Some(d) => copy_span(d),
                None => 0..0,
            };
            return Ok(
                InboundFrameType::Response { req_id, errc: Some(errc_to_error(code)), payload },
            );
        }
        Err(DecodeError::ParseFailed(DeserializeError))
    }
}

/// The `data` member of an encoded error object.
pub enum ErrorEncodeData<'a, S> {
    Msg(&'a str),
    Obj(&'a S),
}

/// An encoded error object: `code`, `message` and `data`.
pub struct ErrorEncode<'a, S> {
    pub code: i64,
    pub message: &'a str,
    pub data: ErrorEncodeData<'a, S>,
}

/// The body of an encoded response: a `result` or an `error` member.
pub enum ResponseBody<'a, S> {
    Result(&'a S),
    Error(ErrorEncode<'a, S>),
}

impl Codec {
    /// Decides the members of the response to the request whose raw id bytes
    /// are `request_id_raw`: the `id` text and the `result` or `error` member.
    /// Fails when the id bytes are not UTF-8.
    pub fn response_parts<'a, S>(
        &self,
        request_id_raw: &'a [u8],
        result: EncodeResponsePayload<'a, S>,
    ) -> (r: Result<(&'a str, ResponseBody<'a, S>), EncodeError>)
        ensures
            !valid_utf8(request_id_raw@) ==> r == Err::<(&'a str, ResponseBody<'a, S>), EncodeError>(
                EncodeError::NonUtf8StringRequestId,
            ),
            valid_utf8(request_id_raw@) ==> (r matches Ok((id, body)) && id.spec_bytes()
                == request_id_raw@ && match result {
                EncodeResponsePayload::Okay(obj) => body == ResponseBody::Result(obj),
                EncodeResponsePayload::ErrCodeOnly(ec) => body matches ResponseBody::Error(e)
                    && e.code == spec_error_to_errc(ec) && e.message@ == crate::codec::error_message(ec)
                    && (e.data matches ErrorEncodeData::Msg(m) && m@ == crate::codec::error_message(ec)),
                EncodeResponsePayload::ErrObjectOnly(obj) => body matches ResponseBody::Error(e)
                    && e.code == -32603i64 && e.message@ == "internal error"@
                    && e.data == ErrorEncodeData::Obj(obj),
                EncodeResponsePayload::ErrCodeAndObject(ec, obj) => body matches ResponseBody::Error(e)
                    && e.code == spec_error_to_errc(ec) && e.message@ == crate::codec::error_message(ec)
                    && e.data == ErrorEncodeData::Obj(obj),
            }),
    {
        let request_id = match str_from_utf8(request_id_raw) {
            Some(s) => s,
            None => return Err(EncodeError::NonUtf8StringRequestId),
        };
        let body = match result {
            EncodeResponsePayload::Okay(obj) => ResponseBody::Result(obj),
            EncodeResponsePayload::ErrCodeOnly(ec) => ResponseBody::Error(
                ErrorEncode {
                    code: error_to_errc(ec),
                    message: ec.message(),
                    data: ErrorEncodeData::Msg(ec.message()),
                },
            ),
            EncodeResponsePayload::ErrObjectOnly(obj) => ResponseBody::Error(
                ErrorEncode {
                    code: INTERNAL_ERROR,
                    message: "internal error",
                    data: ErrorEncodeData::Obj(obj),
                },
            ),
            EncodeResponsePayload::ErrCodeAndObject(ec, obj) => ResponseBody::Error(
                ErrorEncode {
                    code: error_to_errc(ec),
                    message: ec.message(),
                    data: ErrorEncodeData::Obj(obj),
                },
            ),
        };
        Ok((request_id, body))
    }
}

/// The `id` member of a message.
#[derive(Debug)]
pub enum MsgId {
    Int(u64),
    /// A string id: the span of its text.
    Str(core::ops::Range<usize>),
    Null,
}

/// The members of a parsed message, as spans of the frame.
#[derive(Debug)]
pub struct MessageSpans {
    pub id: Option<MsgId>,
    pub method: Option<core::ops::Range<usize>>,
    pub params: Option<core::ops::Range<usize>>,
    pub error: Option<core::ops::Range<usize>>,
    pub result: Option<core::ops::Range<usize>>,
}

/// The span of an optional payload member; empty at zero when absent.
pub open spec fn payload_or_empty(p: Option<core::ops::Range<usize>>) -> core::ops::Range<usize> {
    match p {
        Some(r) => r,
        None => 0usize..0usize,
    }
}

/// The header and payload span of a message. A null id is refused. With a
/// method and no error or result, a message with an id is a request and one
/// without is a notification; with an id, no method and no params, exactly
/// one of error and result makes a response, whose id must be an integer.
/// Anything else is refused.
pub open spec fn spec_decode_message(f: MessageSpans) -> Result<
    (InboundHeader, core::ops::Range<usize>),
    DecodeError,
> {
    if f.id matches Some(MsgId::Null) {
        Err(DecodeError::InvalidFormat)
    } else {
        match (f.id, f.method, f.params, f.error, f.result) {
            (Some(id), Some(m), p, None, None) => Ok(
                (
                    InboundHeader::Request {
                        method: m,
                        req_id: match id {
                            MsgId::Int(x) => ReqId::U64(x),
                            MsgId::Str(s) => ReqId::Bytes(s),
                            MsgId::Null => ReqId::U64(0),
                        },
                    },
                    payload_or_empty(p),
                ),
            ),
            (None, Some(m), p, None, None) => Ok(
                (InboundHeader::Notify { method: m }, payload_or_empty(p)),
            ),
            (Some(id), None, None, e, r) => if e is Some != r is Some {
                match id {
                    MsgId::Int(x) => Ok(
                        (
                            InboundHeader::Response {
                                req_id: ReqId::U64(x),
                                req_id_hash: x,
                                is_error: e is Some,
                            },
                            match e {
                                Some(s) => s,
                                None => r->0,
                            },
                        ),
                    ),
                    _ => Err(DecodeError::InvalidFormat),
                }
            } else {
                Err(DecodeError::InvalidFormat)
            },
            _ => Err(DecodeError::InvalidFormat),
        }
    }
}

fn copy_usize_span(r: &core::ops::Range<usize>) -> (c: core::ops::Range<usize>)
    ensures
        c == *r,
{
    r.start..r.end
}

fn payload_span(p: &Option<core::ops::Range<usize>>) -> (c: core::ops::Range<usize>)
    ensures
        c == payload_or_empty(*p),
{
    match p {
        Some(r) => copy_usize_span(r),
        None => 0..0,
    }
}

impl Codec {
    /// Classifies a parsed message (see [`spec_decode_message`]).
    pub fn decode_message(&self, f: &MessageSpans) -> (r: Result<
        (InboundHeader, core::ops::Range<usize>),
        DecodeError,
    >)
        ensures
            r == spec_decode_message(*f),
    {
        let req_id = match &f.id {
            Some(MsgId::Int(x)) => Some(ReqId::U64(*x)),
            Some(MsgId::Str(s)) => Some(ReqId::Bytes(copy_usize_span(s))),
            Some(MsgId::Null) => return Err(DecodeError::InvalidFormat),
            None => None,
        };
        match (&f.method, &f.error, &f.result) {
            (Some(m), None, None) => {
                let payload = payload_span(&f.params);
                match req_id {
                    Some(id) => Ok((InboundHeader::Request { method: copy_usize_span(m), req_id: id }, payload)),
                    None => Ok((InboundHeader::Notify { method: copy_usize_span(m) }, payload)),
                }
            },
            (None, e, r) => {
                if f.params.is_some() || req_id.is_none() || e.is_some() == r.is_some() {
                    return Err(DecodeError::InvalidFormat);
                }
                let x = match &f.id {
                    Some(MsgId::Int(x)) => *x,
                    _ => return Err(DecodeError::InvalidFormat),
                };
                let payload = match e {
                    Some(s) => copy_usize_span(s),
                    None => match r {
                        Some(s) => copy_usize_span(s),
                        None => 0..0,
                    },
                };
                Ok((InboundHeader::Response { req_id: ReqId::U64(x), req_id_hash: x, is_error: e.is_some() }, payload))
            },
            _ => Err(DecodeError::InvalidFormat),
        }
    }
}

/// A message with a method and neither error nor result decodes with the
/// span of its params as payload (empty at zero without params), as a
/// request when it has a (non-null) id and as a notification when it has
/// none; requests and notifications carry their params the same way.
pub proof fn lemma_call_payload(f: MessageSpans)
    requires
        f.method is Some,
        f.error is None,
        f.result is None,
        !(f.id matches Some(MsgId::Null)),
    ensures
        spec_decode_message(f) matches Ok((h, payload)) && (match f.params {
            Some(p) => payload == p,
            None => payload.start == 0 && payload.end == 0,
        }) && (match f.id {
            Some(_) => h matches InboundHeader::Request { method, .. } && method == f.method->0,
            None => h matches InboundHeader::Notify { method } && method == f.method->0,
        }),
        spec_decode_message(f) matches Ok((_, p1)) && spec_decode_message(
            (MessageSpans { id: None, method: f.method, params: f.params, error: None, result: None }),
        ) matches Ok((_, p2)) && p1 == p2,
{
}

/// A message with an integer id, no method and no params, and exactly one of
/// error and result decodes as a response to that id, an error response
/// exactly when the error member is there, whose payload is the span of the
/// member that is there.
pub proof fn lemma_response_payload(f: MessageSpans)
    requires
        f.id matches Some(MsgId::Int(_)),
        f.method is None,
        f.params is None,
        f.error is Some != f.result is Some,
    ensures
        spec_decode_message(f) matches Ok((h, payload)) && (h matches InboundHeader::Response {
            req_id,
            req_id_hash,
            is_error,
        } && f.id == Some(MsgId::Int(req_id_hash)) && req_id == ReqId::U64(req_id_hash) && is_error
            == f.error is Some) && (match f.error {
            Some(e) => payload == e,
            None => payload == f.result->0,
        }),
{
}

} // verus!
