//! Codec-independent message model: response error codes, encode/decode
//! errors and the description of an inbound frame.

use vstd::prelude::*;

use crate::defs::{RequestId, SizeType};
use crate::text::str_eq;

verus! {

/// Set of predefined error codes for RPC responses. Each codec maps these
/// codes to the error codes of its own protocol.
#[derive(Debug, Clone, Copy, PartialEq, Eq, Structural)]
#[non_exhaustive]
pub enum ResponseError {
    /// The error code couldn't be parsed; the payload carries the details.
    Unknown,
    /// Server failed to parse the request argument.
    InvalidArgument,
    /// Unauthorized access to the requested method.
    Unauthorized,
    /// Server is too busy.
    Busy,
    /// Requested method was not routed.
    MethodNotFound,
    /// Server explicitly aborted the request.
    Aborted,
    /// The request was dropped without any response being sent.
    Unhandled,
    /// Non UTF-8 method name.
    NonUtf8MethodName,
    /// Couldn't parse the request message.
    ParseFailed,
}

/// The numeric code of each response error.
pub open spec fn error_code(e: ResponseError) -> u8 {
    match e {
        ResponseError::Unknown => 0,
        ResponseError::InvalidArgument => 1,
        ResponseError::Unauthorized => 2,
        ResponseError::Busy => 3,
        ResponseError::MethodNotFound => 4,
        ResponseError::Aborted => 5,
        ResponseError::Unhandled => 6,
        ResponseError::NonUtf8MethodName => 7,
        ResponseError::ParseFailed => 8,
    }
}

/// The response error of a numeric code; codes above 8 read as `Unknown`.
pub open spec fn error_of_code(code: u8) -> ResponseError {
    if code == 1 {
        ResponseError::InvalidArgument
    } else if code == 2 {
        ResponseError::Unauthorized
    } else if code == 3 {
        ResponseError::Busy
    } else if code == 4 {
        ResponseError::MethodNotFound
    } else if code == 5 {
        ResponseError::Aborted
    } else if code == 6 {
        ResponseError::Unhandled
    } else if code == 7 {
        ResponseError::NonUtf8MethodName
    } else if code == 8 {
        ResponseError::ParseFailed
    } else {
        ResponseError::Unknown
    }
}

impl ResponseError {
    /// `Unknown` is the one variant that carries no error code.
    pub fn is_error_code(&self) -> (r: bool)
        ensures
            r == !(*self is Unknown),
    {
        !matches!(self, ResponseError::Unknown)
    }

    /// The numeric code of this error.
    pub fn code(self) -> (r: u8)
        ensures
            r == error_code(self),
    {
        match self {
            ResponseError::Unknown => 0,
            ResponseError::InvalidArgument => 1,
            ResponseError::Unauthorized => 2,
            ResponseError::Busy => 3,
            ResponseError::MethodNotFound => 4,
            ResponseError::Aborted => 5,
            ResponseError::Unhandled => 6,
            ResponseError::NonUtf8MethodName => 7,
            ResponseError::ParseFailed => 8,
        }
    }

    /// The error of a numeric code; codes above 8 read as `Unknown`.
    pub fn from_code(code: u8) -> (r: ResponseError)
        ensures
            r == error_of_code(code),
    {
        match code {
            1 => ResponseError::InvalidArgument,
            2 => ResponseError::Unauthorized,
            3 => ResponseError::Busy,
            4 => ResponseError::MethodNotFound,
            5 => ResponseError::Aborted,
            6 => ResponseError::Unhandled,
            7 => ResponseError::NonUtf8MethodName,
            8 => ResponseError::ParseFailed,
            _ => ResponseError::Unknown,
        }
    }
}

/// The human-readable message of each response error.
pub open spec fn error_message(e: ResponseError) -> Seq<char> {
    match e {
        ResponseError::Unknown => "Error code couldn't parsed. Parse the payload to acquire more information"@,
        ResponseError::InvalidArgument => "Server failed to parse the request argument."@,
        ResponseError::Unauthorized => "Unauthorized access to the requested method"@,
        ResponseError::Busy => "Server is too busy!"@,
        ResponseError::MethodNotFound => "Requested method was not routed"@,
        ResponseError::Aborted => "Server explicitly aborted the request"@,
        ResponseError::Unhandled => "Server unhandled the request"@,
        ResponseError::NonUtf8MethodName => "Non UTF-8 Method Name"@,
        ResponseError::ParseFailed => "Couldn't parse the request message"@,
    }
}

impl ResponseError {
    /// The human-readable message of this error (its display form).
    pub fn message(&self) -> (r: &'static str)
        ensures
            r@ == error_message(*self),
    {
        match self {
            ResponseError::Unknown => "Error code couldn't parsed. Parse the payload to acquire more information",
            ResponseError::InvalidArgument => "Server failed to parse the request argument.",
            ResponseError::Unauthorized => "Unauthorized access to the requested method",
            ResponseError::Busy => "Server is too busy!",
            ResponseError::MethodNotFound => "Requested method was not routed",
            ResponseError::Aborted => "Server explicitly aborted the request",
            ResponseError::Unhandled => "Server unhandled the request",
            ResponseError::NonUtf8MethodName => "Non UTF-8 Method Name",
            ResponseError::ParseFailed => "Couldn't parse the request message",
        }
    }
}

/// The name of each response error, as written by codecs that send error
/// codes as text.
pub open spec fn error_name(e: ResponseError) -> Seq<char> {
    match e {
        ResponseError::Unknown => "Unknown"@,
        ResponseError::InvalidArgument => "InvalidArgument"@,
        ResponseError::Unauthorized => "Unauthorized"@,
        ResponseError::Busy => "Busy"@,
        ResponseError::MethodNotFound => "MethodNotFound"@,
        ResponseError::Aborted => "Aborted"@,
        ResponseError::Unhandled => "Unhandled"@,
        ResponseError::NonUtf8MethodName => "NonUtf8MethodName"@,
        ResponseError::ParseFailed => "ParseFailed"@,
    }
}

/// The response error whose name is `name`, if any.
pub open spec fn error_of_name(name: Seq<char>) -> Option<ResponseError> {
    if name == error_name(ResponseError::Unknown) {
        Some(ResponseError::Unknown)
    } else if name == error_name(ResponseError::InvalidArgument) {
        Some(ResponseError::InvalidArgument)
    } else if name == error_name(ResponseError::Unauthorized) {
        Some(ResponseError::Unauthorized)
    } else if name == error_name(ResponseError::Busy) {
        Some(ResponseError::Busy)
    } else if name == error_name(ResponseError::MethodNotFound) {
        Some(ResponseError::MethodNotFound)
    } else if name == error_name(ResponseError::Aborted) {
        Some(ResponseError::Aborted)
    } else if name == error_name(ResponseError::Unhandled) {
        Some(ResponseError::Unhandled)
    } else if name == error_name(ResponseError::NonUtf8MethodName) {
        Some(ResponseError::NonUtf8MethodName)
    } else if name == error_name(ResponseError::ParseFailed) {
        Some(ResponseError::ParseFailed)
    } else {
        None
    }
}

impl ResponseError {
    /// The name of this error.
    pub fn to_str(&self) -> (r: &'static str)
        ensures
            r@ == error_name(*self),
    {
        match self {
            ResponseError::Unknown => "Unknown",
            ResponseError::InvalidArgument => "InvalidArgument",
            ResponseError::Unauthorized => "Unauthorized",
            ResponseError::Busy => "Busy",
            ResponseError::MethodNotFound => "MethodNotFound",
            ResponseError::Aborted => "Aborted",
            ResponseError::Unhandled => "Unhandled",
            ResponseError::NonUtf8MethodName => "NonUtf8MethodName",
            ResponseError::ParseFailed => "ParseFailed",
        }
    }

    /// The error named `name`; `None` if no error has that name.
    pub fn from_name(name: &str) -> (r: Option<ResponseError>)
        ensures
            r == error_of_name(name@),
    {
        if str_eq(name, ResponseError::Unknown.to_str()) {
            Some(ResponseError::Unknown)
        } else if str_eq(name, ResponseError::InvalidArgument.to_str()) {
            Some(ResponseError::InvalidArgument)
        } else if str_eq(name, ResponseError::Unauthorized.to_str()) {
            Some(ResponseError::Unauthorized)
        } else if str_eq(name, ResponseError::Busy.to_str()) {
            Some(ResponseError::Busy)
        } else if str_eq(name, ResponseError::MethodNotFound.to_str()) {
            Some(ResponseError::MethodNotFound)
        } else if str_eq(name, ResponseError::Aborted.to_str()) {
            Some(ResponseError::Aborted)
        } else if str_eq(name, ResponseError::Unhandled.to_str()) {
            Some(ResponseError::Unhandled)
        } else if str_eq(name, ResponseError::NonUtf8MethodName.to_str()) {
            Some(ResponseError::NonUtf8MethodName)
        } else if str_eq(name, ResponseError::ParseFailed.to_str()) {
            Some(ResponseError::ParseFailed)
        } else {
            None
        }
    }
}

/// Every response error is read back from its name.
pub proof fn lemma_error_name_roundtrip(e: ResponseError)
    ensures
        error_of_name(error_name(e)) == Some(e),
{
    reveal_strlit("Unknown");
    reveal_strlit("InvalidArgument");
    reveal_strlit("Unauthorized");
    reveal_strlit("Busy");
    reveal_strlit("MethodNotFound");
    reveal_strlit("Aborted");
    reveal_strlit("Unhandled");
    reveal_strlit("NonUtf8MethodName");
    reveal_strlit("ParseFailed");
    assert(error_name(ResponseError::Unknown).len() == 7);
    assert(error_name(ResponseError::InvalidArgument).len() == 15);
    assert(error_name(ResponseError::Unauthorized).len() == 12);
    assert(error_name(ResponseError::Busy).len() == 4);
    assert(error_name(ResponseError::MethodNotFound).len() == 14);
    assert(error_name(ResponseError::Aborted).len() == 7);
    assert(error_name(ResponseError::Unhandled).len() == 9);
    assert(error_name(ResponseError::NonUtf8MethodName).len() == 17);
    assert(error_name(ResponseError::ParseFailed).len() == 11);
    assert(error_name(ResponseError::Unknown)[0] != error_name(ResponseError::Aborted)[0]);
    assert(error_name(ResponseError::Unknown) != error_name(ResponseError::Aborted));
}

impl Default for ResponseError {
    fn default() -> (r: ResponseError)
        ensures
            r == ResponseError::Unknown,
    {
        ResponseError::Unknown
    }
}

impl From<u8> for ResponseError {
    fn from(code: u8) -> (r: ResponseError) {
        ResponseError::from_code(code)
    }
}

impl vstd::std_specs::convert::FromSpecImpl<u8> for ResponseError {
    open spec fn obeys_from_spec() -> bool {
        true
    }

    open spec fn from_spec(code: u8) -> ResponseError {
        error_of_code(code)
    }
}

impl From<ResponseError> for u8 {
    fn from(code: ResponseError) -> (r: u8) {
        code.code()
    }
}

impl vstd::std_specs::convert::FromSpecImpl<ResponseError> for u8 {
    open spec fn obeys_from_spec() -> bool {
        true
    }

    open spec fn from_spec(code: ResponseError) -> u8 {
        error_code(code)
    }
}

/// Every response error survives the round trip through its numeric code,
/// and every code up to 8 survives the round trip through its error.
pub proof fn lemma_error_code_roundtrip(e: ResponseError, code: u8)
    ensures
        error_of_code(error_code(e)) == e,
        code <= 8 ==> error_code(error_of_code(code)) == code,
        code > 8 ==> error_of_code(code) == ResponseError::Unknown,
{
}

/// What a response carries when it is encoded.
pub enum EncodeResponsePayload<'a, S> {
    /// A successful result object.
    Okay(&'a S),
    /// An error given by its code alone.
    ErrCodeOnly(ResponseError),
    /// An error given by its object alone.
    ErrObjectOnly(&'a S),
    /// An error given by its code and its object.
    ErrCodeAndObject(ResponseError, &'a S),
}

/// Value deserialization failed; the detail was omitted.
#[derive(Debug, Clone, Copy, PartialEq, Eq, Structural)]
pub struct DeserializeError;

/// Any error from a deserializer, as a [`DeserializeError`]; the detail is
/// dropped.
pub fn err_to_de_error<E>(_e: E) -> (r: DeserializeError)
    ensures
        r == DeserializeError,
{
    DeserializeError
}

/// Display form of [`DeserializeError`].
#[derive(Debug, Clone, Copy, PartialEq, Eq, Structural)]
pub struct Monostate;

/// Decoding payload is not supported for the named codec.
#[derive(Debug, Clone, Copy)]
pub struct DecodePayloadUnsupportedError(pub &'static str);

/// Describes an inbound frame: byte spans of its parts within the frame.
#[derive(Debug)]
pub enum InboundFrameType {
    Request {
        /// The raw request id bytes range.
        req_id_raw: core::ops::Range<SizeType>,
        method: core::ops::Range<SizeType>,
        params: core::ops::Range<SizeType>,
    },
    Notify { method: core::ops::Range<SizeType>, params: core::ops::Range<SizeType> },
    Response {
        req_id: RequestId,
        /// Present when the response is an error response.
        errc: Option<ResponseError>,
        /// The result object, or the error object of an error response.
        payload: core::ops::Range<SizeType>,
    },
}

fn copy_range(r: &core::ops::Range<SizeType>) -> (c: core::ops::Range<SizeType>)
    ensures
        c == *r,
{
    r.start..r.end
}

impl Clone for InboundFrameType {
    fn clone(&self) -> (r: InboundFrameType)
        ensures
            r == *self,
    {
        match self {
            InboundFrameType::Request { req_id_raw, method, params } => InboundFrameType::Request {
                req_id_raw: copy_range(req_id_raw),
                method: copy_range(method),
                params: copy_range(params),
            },
            InboundFrameType::Notify { method, params } => InboundFrameType::Notify {
                method: copy_range(method),
                params: copy_range(params),
            },
            InboundFrameType::Response { req_id, errc, payload } => InboundFrameType::Response {
                req_id: *req_id,
                errc: *errc,
                payload: copy_range(payload),
            },
        }
    }
}

/// Errors from encoding an outbound message.
#[derive(Debug, Clone, Copy, PartialEq, Eq, Structural)]
pub enum EncodeError {
    UnsupportedAction,
    NonUtf8StringMethodName,
    NonUtf8StringPayloadContent,
    NonUtf8StringRequestId,
    SerializeFailed(DeserializeError),
    NotReusable,
    RequestIdAllocationFailed,
    /// The request id bytes to respond to are not in this codec's format.
    InvalidRequestId,
}

/// Errors from decoding an inbound frame.
#[derive(Debug, Clone, Copy, PartialEq, Eq, Structural)]
pub enum DecodeError {
    UnsupportedAction,
    UnsupportedProtocol,
    RequestIdRetrievalFailed,
    NonUtf8Input,
    BufferSizeExceeded(u64),
    ParseFailed(DeserializeError),
    /// The frame does not follow the codec's wire format.
    InvalidFormat,
}

impl From<DeserializeError> for EncodeError {
    fn from(e: DeserializeError) -> (r: EncodeError) {
        EncodeError::SerializeFailed(e)
    }
}

impl vstd::std_specs::convert::FromSpecImpl<DeserializeError> for EncodeError {
    open spec fn obeys_from_spec() -> bool {
        true
    }

    open spec fn from_spec(e: DeserializeError) -> EncodeError {
        EncodeError::SerializeFailed(e)
    }
}

impl From<DeserializeError> for DecodeError {
    fn from(e: DeserializeError) -> (r: DecodeError) {
        DecodeError::ParseFailed(e)
    }
}

impl vstd::std_specs::convert::FromSpecImpl<DeserializeError> for DecodeError {
    open spec fn obeys_from_spec() -> bool {
        true
    }

    open spec fn from_spec(e: DeserializeError) -> DecodeError {
        DecodeError::ParseFailed(e)
    }
}

} // verus!
