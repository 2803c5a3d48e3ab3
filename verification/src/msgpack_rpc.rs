//! msgpack-rpc: frame decoding over the MessagePack wire format, request-id
//! handling and the layout of responses.
//!
//! Requests are `[0, id, method, params]`, notifications `[2, method,
//! params]` and responses `[1, id, error, result]`. Parameters are not
//! wrapped in an array by this codec.
//!
//! MessagePack values are read with `rmp::decode`, and the message headers
//! are written with `rmp::encode`; writing MessagePack from serde values is
//! done by `rmp_serde` outside this library.

use vstd::prelude::*;
use vstd::string::StringSliceAdditionalSpecFns;
use vstd::utf8::{decode_utf8, valid_utf8};

use crate::codec::{
    error_name, error_of_name, DecodeError, DeserializeError, EncodeError, EncodeResponsePayload,
    InboundFrameType, ResponseError,
};
use crate::defs::RequestId;
use crate::raw::{be32, be64, be_uint, pow256};

verus! {

pub const TYPE_ID_REQUEST: u8 = 0;
pub const TYPE_ID_RESPONSE: u8 = 1;
pub const TYPE_ID_NOTIFICATION: u8 = 2;

/// The msgpack-rpc codec.
#[derive(Default, Clone, Copy, Debug)]
pub struct Codec;

/* ------------------------------------- MessagePack reading ------------------------------------- */

/// The value of big-endian two's complement bytes.
pub open spec fn be_int(s: Seq<u8>) -> int {
    if s.len() > 0 && s[0] >= 128 {
        be_uint(s) - pow256(s.len())
    } else {
        be_uint(s) as int
    }
}

/// The `n` bytes after the marker of `b`, read as an integer, and the count
/// of bytes read.
pub open spec fn mp_fixed(b: Seq<u8>, n: int, signed: bool) -> Option<(int, int)> {
    if b.len() >= 1 + n {
        let s = b.subrange(1, 1 + n);
        Some((if signed { be_int(s) } else { be_uint(s) as int }, 1 + n))
    } else {
        None
    }
}

/// A MessagePack array header at the front of `b`: the element count and the
/// header's byte length.
pub open spec fn mp_array_len(b: Seq<u8>) -> Option<(u32, int)> {
    if b.len() == 0 {
        None
    } else if 0x90 <= b[0] <= 0x9f {
        Some(((b[0] - 0x90) as u32, 1))
    } else if b[0] == 0xdc {
        match mp_fixed(b, 2, false) {
            Some((v, k)) => Some((v as u32, k)),
            None => None,
        }
    } else if b[0] == 0xdd {
        match mp_fixed(b, 4, false) {
            Some((v, k)) => Some((v as u32, k)),
            None => None,
        }
    } else {
        None
    }
}

/// A MessagePack string header at the front of `b`: the string's byte
/// length and the header's byte length.
pub open spec fn mp_str_len(b: Seq<u8>) -> Option<(u32, int)> {
    if b.len() == 0 {
        None
    } else if 0xa0 <= b[0] <= 0xbf {
        Some(((b[0] - 0xa0) as u32, 1))
    } else if b[0] == 0xd9 {
        match mp_fixed(b, 1, false) {
            Some((v, k)) => Some((v as u32, k)),
            None => None,
        }
    } else if b[0] == 0xda {
        match mp_fixed(b, 2, false) {
            Some((v, k)) => Some((v as u32, k)),
            None => None,
        }
    } else if b[0] == 0xdb {
        match mp_fixed(b, 4, false) {
            Some((v, k)) => Some((v as u32, k)),
            None => None,
        }
    } else {
        None
    }
}

/// A MessagePack integer at the front of `b`: its value and byte length.
pub open spec fn mp_int(b: Seq<u8>) -> Option<(int, int)> {
    if b.len() == 0 {
        None
    } else if b[0] <= 0x7f {
        Some((b[0] as int, 1))
    } else if b[0] >= 0xe0 {
        Some((b[0] - 256, 1))
    } else if b[0] == 0xcc {
        mp_fixed(b, 1, false)
    } else if b[0] == 0xcd {
        mp_fixed(b, 2, false)
    } else if b[0] == 0xce {
        mp_fixed(b, 4, false)
    } else if b[0] == 0xcf {
        mp_fixed(b, 8, false)
    } else if b[0] == 0xd0 {
        mp_fixed(b, 1, true)
    } else if b[0] == 0xd1 {
        mp_fixed(b, 2, true)
    } else if b[0] == 0xd2 {
        mp_fixed(b, 4, true)
    } else if b[0] == 0xd3 {
        mp_fixed(b, 8, true)
    } else {
        None
    }
}

/// `b` starts with the MessagePack nil marker.
pub open spec fn mp_nil(b: Seq<u8>) -> bool {
    b.len() >= 1 && b[0] == 0xc0
}

/// A MessagePack `uint 32` (marker `0xce`) at the front of `b`.
pub open spec fn mp_u32(b: Seq<u8>) -> Option<u32> {
    if b.len() >= 5 && b[0] == 0xce {
        Some(be_uint(b.subrange(1, 5)) as u32)
    } else {
        None
    }
}

/// A MessagePack string at the front of `b` whose bytes are UTF-8: the
/// string's bytes and the byte length of the whole string value.
pub open spec fn mp_str(b: Seq<u8>) -> Option<(Seq<u8>, int)> {
    match mp_str_len(b) {
        Some((l, h)) => if b.len() - h >= l && valid_utf8(b.subrange(h, h + l)) {
            Some((b.subrange(h, h + l), h + l))
        } else {
            None
        },
        None => None,
    }
}

pub open spec fn rest_of(b: Seq<u8>, k: int) -> Seq<u8> {
    b.subrange(k, b.len() as int)
}

/// `rmp::decode::read_array_len` on a byte slice: the element count of the
/// array header at the front, and the bytes after it.
#[verifier::external_body]
fn read_array_len(buf: &[u8]) -> (r: Option<(u32, &[u8])>)
    ensures
        match mp_array_len(buf@) {
            Some((n, k)) => r matches Some((v, rest)) && v == n && rest@ == rest_of(buf@, k),
            None => r is None,
        },
{
    let mut rd = buf;
    match rmp::decode::read_array_len(&mut rd) {
        Ok(n) => Some((n, rd)),
        Err(_) => None,
    }
}

/// `rmp::decode::read_int::<u32, _>` on a byte slice: the integer at the
/// front when it is in the `u32` range, and the bytes after it.
#[verifier::external_body]
fn read_int_u32(buf: &[u8]) -> (r: Option<(u32, &[u8])>)
    ensures
        match mp_int(buf@) {
            Some((v, k)) => if 0 <= v <= u32::MAX {
                r matches Some((x, rest)) && x == v && rest@ == rest_of(buf@, k)
            } else {
                r is None
            },
            None => r is None,
        },
{
    let mut rd = buf;
    match rmp::decode::read_int::<u32, _>(&mut rd) {
        Ok(n) => Some((n, rd)),
        Err(_) => None,
    }
}

/// `rmp::decode::read_str_len` on a byte slice: the byte length of the
/// string whose header is at the front, and the bytes after the header.
#[verifier::external_body]
fn read_str_len(buf: &[u8]) -> (r: Option<(u32, &[u8])>)
    ensures
        match mp_str_len(buf@) {
            Some((n, k)) => r matches Some((v, rest)) && v == n && rest@ == rest_of(buf@, k),
            None => r is None,
        },
{
    let mut rd = buf;
    match rmp::decode::read_str_len(&mut rd) {
        Ok(n) => Some((n, rd)),
        Err(_) => None,
    }
}

/// `rmp::decode::read_nil` on a byte slice: the bytes after a leading nil.
#[verifier::external_body]
fn read_nil(buf: &[u8]) -> (r: Option<&[u8]>)
    ensures
        if mp_nil(buf@) {
            r matches Some(rest) && rest@ == rest_of(buf@, 1)
        } else {
            r is None
        },
{
    let mut rd = buf;
    match rmp::decode::read_nil(&mut rd) {
        Ok(()) => Some(rd),
        Err(_) => None,
    }
}

/// `rmp::decode::read_u32` on a byte slice: a leading `uint 32` value.
#[verifier::external_body]
fn read_u32(buf: &[u8]) -> (r: Option<u32>)
    ensures
        r == mp_u32(buf@),
{
    let mut rd = buf;
    rmp::decode::read_u32(&mut rd).ok()
}

/// `rmp::decode::read_str_from_slice`: a leading UTF-8 string value, and
/// the bytes after it.
#[verifier::external_body]
fn read_str_from_slice(buf: &[u8]) -> (r: Option<(&str, &[u8])>)
    ensures
        match mp_str(buf@) {
            Some((s, k)) => r matches Some((st, rest)) && st.spec_bytes() == s && rest@ == rest_of(
                buf@,
                k,
            ),
            None => r is None,
        },
{
    match rmp::decode::read_str_from_slice(buf) {
        Ok((s, rest)) => Some((s, rest)),
        Err(_) => None,
    }
}

/* ---------------------------------------- Frame decoding ---------------------------------------- */

pub open spec fn span(a: int, b: int) -> core::ops::Range<u32> {
    core::ops::Range { start: a as u32, end: b as u32 }
}

/// The request id of a call at position `p` (none for a notification): its
/// value and the position after it.
pub open spec fn call_id(f: Seq<u8>, p: int, is_req: bool) -> Option<int> {
    if is_req {
        match mp_int(rest_of(f, p)) {
            Some((v, k)) => if 0 <= v <= u32::MAX {
                Some(p + k)
            } else {
                None
            },
            None => None,
        }
    } else {
        Some(p)
    }
}

/// The method string header of a call whose id ends at `q`: the method's
/// first byte and its length.
pub open spec fn call_method(f: Seq<u8>, q: int) -> Option<(int, int)> {
    match mp_str_len(rest_of(f, q)) {
        Some((l, h)) => Some((q + h, l as int)),
        None => None,
    }
}

/// A call frame whose method string runs past the end of the frame.
pub open spec fn call_overruns(f: Seq<u8>, p: int, is_req: bool) -> bool {
    match call_id(f, p, is_req) {
        Some(q) => match call_method(f, q) {
            Some((ms, l)) => ms + l > f.len(),
            None => false,
        },
        None => false,
    }
}

/// What a call frame (request or notification) whose type id ends at `p`
/// decodes to.
pub open spec fn spec_decode_call(f: Seq<u8>, p: int, is_req: bool) -> Option<InboundFrameType> {
    match call_id(f, p, is_req) {
        Some(q) => match call_method(f, q) {
            Some((ms, l)) => if is_req {
                Some(
                    InboundFrameType::Request {
                        req_id_raw: span(p, q),
                        method: span(ms, ms + l),
                        params: span(ms + l, f.len() as int),
                    },
                )
            } else {
                Some(
                    InboundFrameType::Notify {
                        method: span(ms, ms + l),
                        params: span(ms + l, f.len() as int),
                    },
                )
            },
            None => None,
        },
        None => None,
    }
}

/// The error code and error object start of an error slot at `q`: a
/// two-element array whose first element names a response error.
pub open spec fn error_slot(f: Seq<u8>, q: int) -> Option<(ResponseError, int)> {
    match mp_array_len(rest_of(f, q)) {
        Some((n, a)) => if n == 2 {
            match mp_str(rest_of(f, q + a)) {
                Some((sb, c)) => match error_of_name(decode_utf8(sb)) {
                    Some(e) => Some((e, q + a + c)),
                    None => None,
                },
                None => None,
            }
        } else {
            None
        },
        None => None,
    }
}

/// What a response frame whose type id ends at `p` decodes to. A nil error
/// slot makes a successful response whose result is the rest of the frame.
/// Otherwise the last byte must be the nil result, the error slot runs up to
/// it, and the error is the named code of a `[code, object]` slot or
/// `Unknown` with the whole slot as object.
pub open spec fn spec_decode_response(f: Seq<u8>, p: int) -> Option<InboundFrameType> {
    match mp_int(rest_of(f, p)) {
        Some((v, k)) => if !(0 < v <= u32::MAX) {
            None
        } else {
            let q = p + k;
            let id = RequestId::with_value(v as u64);
            if mp_nil(rest_of(f, q)) {
                Some(
                    InboundFrameType::Response {
                        req_id: id,
                        errc: None,
                        payload: span(q + 1, f.len() as int),
                    },
                )
            } else if f.last() != 0xc0 {
                None
            } else {
                match error_slot(f, q) {
                    Some((e, ps)) => Some(
                        InboundFrameType::Response {
                            req_id: id,
                            errc: Some(e),
                            payload: span(ps, f.len() - 1),
                        },
                    ),
                    None => Some(
                        InboundFrameType::Response {
                            req_id: id,
                            errc: Some(ResponseError::Unknown),
                            payload: span(q, f.len() - 1),
                        },
                    ),
                }
            }
        },
        None => None,
    }
}

/// The array length and type id that start a frame, and the position after
/// them.
pub open spec fn frame_kind(f: Seq<u8>) -> Option<(u32, int, int)> {
    match mp_array_len(f) {
        Some((n, k1)) => match mp_int(rest_of(f, k1)) {
            Some((t, k2)) => if 0 <= t <= 255 {
                Some((n, t, k1 + k2))
            } else {
                None
            },
            None => None,
        },
        None => None,
    }
}

/// What a frame decodes to; `None` for a frame that is not msgpack-rpc.
pub open spec fn spec_decode(f: Seq<u8>) -> Option<InboundFrameType> {
    match frame_kind(f) {
        Some((n, t, p)) => if n == 4 && t == 0 {
            spec_decode_call(f, p, true)
        } else if n == 3 && t == 2 {
            spec_decode_call(f, p, false)
        } else if n == 4 && t == 1 {
            spec_decode_response(f, p)
        } else {
            None
        },
        None => None,
    }
}

/// A response frame whose type id ends at `p`, with a valid request id and a
/// non-nil error slot, but without the nil result as its last byte.
pub open spec fn response_misses_nil(f: Seq<u8>, p: int) -> bool {
    match mp_int(rest_of(f, p)) {
        Some((v, k)) => 0 < v <= u32::MAX && !mp_nil(rest_of(f, p + k)) && f.last() != 0xc0,
        None => false,
    }
}

/// The error a frame that does not decode fails with: an unknown pair of
/// array length and type id, or an error response without its nil result,
/// is of an invalid format; anything else that cannot be read is a parse
/// failure.
pub open spec fn decode_error_of(f: Seq<u8>) -> DecodeError {
    match frame_kind(f) {
        Some((n, t, p)) => if (n == 4 && t == 0) || (n == 3 && t == 2) {
            DecodeError::ParseFailed(DeserializeError)
        } else if n == 4 && t == 1 {
            if response_misses_nil(f, p) {
                DecodeError::InvalidFormat
            } else {
                DecodeError::ParseFailed(DeserializeError)
            }
        } else {
            DecodeError::InvalidFormat
        },
        None => DecodeError::ParseFailed(DeserializeError),
    }
}

/// A call frame whose method name runs past the end of the frame; such a
/// frame is not accepted for decoding.
pub open spec fn method_overruns(f: Seq<u8>) -> bool {
    match frame_kind(f) {
        Some((n, t, p)) => if n == 4 && t == 0 {
            call_overruns(f, p, true)
        } else if n == 3 && t == 2 {
            call_overruns(f, p, false)
        } else {
            false
        },
        None => false,
    }
}

fn after(frame: &[u8], rest: &[u8], Ghost(k): Ghost<int>, pos: usize) -> (r: usize)
    requires
        pos <= frame@.len(),
        0 <= k <= frame@.len() - pos,
        rest@ == rest_of(rest_of(frame@, pos as int), k),
    ensures
        r == pos + k,
{
    frame.len() - rest.len()
}

fn decode_call(frame: &[u8], p: usize, is_req: bool) -> (r: Option<InboundFrameType>)
    requires
        p <= frame@.len() <= u32::MAX,
        !call_overruns(frame@, p as int, is_req),
    ensures
        r == spec_decode_call(frame@, p as int, is_req),
{
    let len = frame.len();
    let q = if is_req {
        match read_int_u32(&frame[p..len]) {
            Some((_, rest)) => {
                let ghost k = mp_int(rest_of(frame@, p as int)).unwrap().1;
                after(frame, rest, Ghost(k), p)
            },
            None => return None,
        }
    } else {
        p
    };
    assert(call_id(frame@, p as int, is_req) == Some(q as int));
    let (l, rest) = match read_str_len(&frame[q..len]) {
        Some(x) => x,
        None => return None,
    };
    let ghost h = mp_str_len(rest_of(frame@, q as int)).unwrap().1;
    let ms = after(frame, rest, Ghost(h), q);
    assert(call_method(frame@, q as int) == Some((ms as int, l as int)));
    let me = ms + l as usize;
    if is_req {
        Some(
            InboundFrameType::Request {
                req_id_raw: (p as u32)..(q as u32),
                method: (ms as u32)..(me as u32),
                params: (me as u32)..(len as u32),
            },
        )
    } else {
        Some(
            InboundFrameType::Notify {
                method: (ms as u32)..(me as u32),
                params: (me as u32)..(len as u32),
            },
        )
    }
}

fn decode_error_slot(frame: &[u8], q: usize) -> (r: Option<(ResponseError, usize)>)
    requires
        q <= frame@.len(),
    ensures
        match error_slot(frame@, q as int) {
            Some((e, ps)) => r == Some((e, ps as usize)),
            None => r is None,
        },
        r matches Some((_, ps)) ==> ps <= frame@.len(),
{
    let len = frame.len();
    let (n, rest) = match read_array_len(&frame[q..len]) {
        Some(x) => x,
        None => return None,
    };
    if n != 2 {
        return None;
    }
    let ghost a = mp_array_len(rest_of(frame@, q as int)).unwrap().1;
    let qa = after(frame, rest, Ghost(a), q);
    let (name, tail) = match read_str_from_slice(&frame[qa..len]) {
        Some(x) => x,
        None => return None,
    };
    let ghost c = mp_str(rest_of(frame@, qa as int)).unwrap().1;
    let ps = after(frame, tail, Ghost(c), qa);
    proof {
        vstd::utf8::encode_utf8_decode_utf8(name@);
    }
    match ResponseError::from_name(name) {
        Some(e) => Some((e, ps)),
        None => None,
    }
}

fn decode_response(frame: &[u8], p: usize) -> (r: Result<InboundFrameType, DecodeError>)
    requires
        p <= frame@.len() <= u32::MAX,
        p >= 1,
    ensures
        match spec_decode_response(frame@, p as int) {
            Some(x) => r == Ok::<InboundFrameType, DecodeError>(x),
            None => r == Err::<InboundFrameType, DecodeError>(
                if response_misses_nil(frame@, p as int) {
                    DecodeError::InvalidFormat
                } else {
                    DecodeError::ParseFailed(DeserializeError)
                },
            ),
        },
{
    let len = frame.len();
    let (v, rest) = match read_int_u32(&frame[p..len]) {
        Some(x) => x,
        None => return Err(DecodeError::ParseFailed(DeserializeError)),
    };
    if v == 0 {
        return Err(DecodeError::ParseFailed(DeserializeError));
    }
    let req_id = RequestId::new(v as u64);
    proof {
        RequestId::lemma_with_value(v as u64, req_id);
    }
    let ghost k = mp_int(rest_of(frame@, p as int)).unwrap().1;
    let q = after(frame, rest, Ghost(k), p);
    if let Some(_) = read_nil(&frame[q..len]) {
        return Ok(
            InboundFrameType::Response { req_id, errc: None, payload: ((q + 1) as u32)..(len as u32) },
        );
    }
    if frame[len - 1] != 0xc0 {
        return Err(DecodeError::InvalidFormat);
    }
    match decode_error_slot(frame, q) {
        Some((e, ps)) => Ok(
            InboundFrameType::Response {
                req_id,
                errc: Some(e),
                payload: (ps as u32)..((len - 1) as u32),
            },
        ),
        None => Ok(
            InboundFrameType::Response {
                req_id,
                errc: Some(ResponseError::Unknown),
                payload: (q as u32)..((len - 1) as u32),
            },
        ),
    }
}

fn call_in_bounds(frame: &[u8], p: usize, is_req: bool) -> (r: bool)
    requires
        p <= frame@.len() <= u32::MAX,
    ensures
        r == !call_overruns(frame@, p as int, is_req),
{
    let len = frame.len();
    let q = if is_req {
        match read_int_u32(&frame[p..len]) {
            Some((_, rest)) => {
                let ghost k = mp_int(rest_of(frame@, p as int)).unwrap().1;
                after(frame, rest, Ghost(k), p)
            },
            None => return true,
        }
    } else {
        p
    };
    let (l, rest) = match read_str_len(&frame[q..len]) {
        Some(x) => x,
        None => return true,
    };
    let ghost h = mp_str_len(rest_of(frame@, q as int)).unwrap().1;
    let ms = after(frame, rest, Ghost(h), q);
    l as usize <= len - ms
}

impl Codec {
    /// Whether the method name of a call frame lies within the frame; frames
    /// of other kinds always pass. [`Codec::decode_inbound`] takes only
    /// frames that pass.
    pub fn method_in_bounds(&self, frame: &[u8]) -> (r: bool)
        requires
            frame@.len() <= u32::MAX,
        ensures
            r == !method_overruns(frame@),
    {
        let len = frame.len();
        let (n, rest) = match read_array_len(frame) {
            Some(x) => x,
            None => return true,
        };
        let ghost k1 = mp_array_len(frame@).unwrap().1;
        assert(rest_of(frame@, 0) =~= frame@);
        let p1 = after(frame, rest, Ghost(k1), 0);
        let (t, rest2) = match read_int_u32(&frame[p1..len]) {
            Some(x) => x,
            None => return true,
        };
        if t > 255 {
            return true;
        }
        let ghost k2 = mp_int(rest_of(frame@, p1 as int)).unwrap().1;
        let p = after(frame, rest2, Ghost(k2), p1);
        assert(frame_kind(frame@) == Some((n, t as int, p as int)));
        if n == 4 && t == TYPE_ID_REQUEST as u32 {
            call_in_bounds(frame, p, true)
        } else if n == 3 && t == TYPE_ID_NOTIFICATION as u32 {
            call_in_bounds(frame, p, false)
        } else {
            true
        }
    }
}

impl Codec {
    /// Decodes a frame into the spans of its parts. A frame that is not a
    /// msgpack-rpc request, notification or response fails: with
    /// `InvalidFormat` for an unknown array length and type id, or an error
    /// response without its nil result, and with a parse error when its
    /// values cannot be read.
    pub fn decode_inbound(&self, frame: &[u8]) -> (r: Result<InboundFrameType, DecodeError>)
        requires
            frame@.len() <= u32::MAX,
            !method_overruns(frame@),
        ensures
            match spec_decode(frame@) {
                Some(x) => r == Ok::<InboundFrameType, DecodeError>(x),
                None => r == Err::<InboundFrameType, DecodeError>(decode_error_of(frame@)),
            },
    {
        let len = frame.len();
        let (n, rest) = match read_array_len(frame) {
            Some(x) => x,
            None => return Err(DecodeError::ParseFailed(DeserializeError)),
        };
        let ghost k1 = mp_array_len(frame@).unwrap().1;
        assert(rest_of(frame@, 0) =~= frame@);
        let p1 = after(frame, rest, Ghost(k1), 0);
        let (t, rest2) = match read_int_u32(&frame[p1..len]) {
            Some(x) => x,
            None => return Err(DecodeError::ParseFailed(DeserializeError)),
        };
        if t > 255 {
            return Err(DecodeError::ParseFailed(DeserializeError));
        }
        let ghost k2 = mp_int(rest_of(frame@, p1 as int)).unwrap().1;
        let p = after(frame, rest2, Ghost(k2), p1);
        assert(frame_kind(frame@) == Some((n, t as int, p as int)));
        if n == 4 && t == TYPE_ID_REQUEST as u32 {
            match decode_call(frame, p, true) {
                Some(x) => Ok(x),
                None => Err(DecodeError::ParseFailed(DeserializeError)),
            }
        } else if n == 3 && t == TYPE_ID_NOTIFICATION as u32 {
            match decode_call(frame, p, false) {
                Some(x) => Ok(x),
                None => Err(DecodeError::ParseFailed(DeserializeError)),
            }
        } else if n == 4 && t == TYPE_ID_RESPONSE as u32 {
            decode_response(frame, p)
        } else {
            Err(DecodeError::InvalidFormat)
        }
    }
}

/// The request id of a decoded request spans exactly one MessagePack
/// integer: its span starts right after the type id, the integer read there
/// is a `u32` whose encoding is as long as the span, the method string
/// header follows the id, and the parameters run from the end of the method
/// name to the end of the frame.
pub proof fn lemma_request_spans(f: Seq<u8>)
    requires
        f.len() <= u32::MAX,
        !method_overruns(f),
    ensures
        spec_decode(f) matches Some(InboundFrameType::Request { req_id_raw, method, params }) ==> {
            let a = req_id_raw.start as int;
            let b = req_id_raw.end as int;
            &&& frame_kind(f) matches Some((_, _, p)) && a == p
            &&& a < b <= method.start <= method.end == params.start <= params.end == f.len()
            &&& mp_int(f.subrange(a, f.len() as int)) matches Some((v, k)) && k == b - a && 0 <= v
                <= u32::MAX
            &&& mp_str_len(f.subrange(b, f.len() as int)) matches Some((l, h)) && method.start == b
                + h && method.end == method.start + l
        },
{
    if let Some((n, t, p)) = frame_kind(f) {
        if n == 4 && t == 0 {
            if let Some((v, k)) = mp_int(rest_of(f, p)) {
                if 0 <= v <= u32::MAX {
                    let q = p + k;
                    if let Some((l, h)) = mp_str_len(rest_of(f, q)) {
                        assert(call_method(f, q) == Some((q + h, l as int)));
                        assert(q + h + l <= f.len());
                    }
                }
            }
        }
    }
}

/* ------------------------------------- MessagePack writing ------------------------------------- */

/// Two big-endian bytes of `x`.
pub open spec fn be16(x: u16) -> Seq<u8> {
    seq![(x >> 8u16) as u8, (x & 0xff) as u8]
}

/// The shortest MessagePack array header for `len` elements.
pub open spec fn mp_array_header(len: u32) -> Seq<u8> {
    if len < 16 {
        seq![(0x90 + len) as u8]
    } else if len < 0x10000 {
        seq![0xdcu8] + be16(len as u16)
    } else {
        seq![0xddu8] + be32(len)
    }
}

/// The shortest MessagePack string header for `len` bytes.
pub open spec fn mp_str_header(len: u32) -> Seq<u8> {
    if len < 32 {
        seq![(0xa0 + len) as u8]
    } else if len < 256 {
        seq![0xd9u8, len as u8]
    } else if len < 0x10000 {
        seq![0xdau8] + be16(len as u16)
    } else {
        seq![0xdbu8] + be32(len)
    }
}

/// The MessagePack string value of the bytes `s`.
pub open spec fn mp_str_bytes(s: Seq<u8>) -> Seq<u8> {
    mp_str_header(s.len() as u32) + s
}

/// The shortest MessagePack unsigned integer value of `v`: a positive
/// fixint below 128, else `uint 8`, `uint 16`, `uint 32` or `uint 64` with
/// its big-endian bytes.
pub open spec fn mp_uint_bytes(v: u64) -> Seq<u8> {
    if v < 128 {
        seq![v as u8]
    } else if v < 256 {
        seq![0xccu8, v as u8]
    } else if v < 0x10000 {
        seq![0xcdu8] + be16(v as u16)
    } else if v < 0x1_0000_0000 {
        seq![0xceu8] + be32(v as u32)
    } else {
        seq![0xcfu8] + be64(v)
    }
}

/// The MessagePack nil value.
pub open spec fn mp_nil_bytes() -> Seq<u8> {
    seq![0xc0u8]
}

/// `rmp::encode::write_array_len` into a byte vector: appends the shortest
/// array header for `len` (writing to a vector cannot fail).
#[verifier::external_body]
fn write_array_len(buf: &mut Vec<u8>, len: u32)
    ensures
        final(buf)@ == old(buf)@ + mp_array_header(len),
{
    let _ = rmp::encode::write_array_len(buf, len);
}

/// `rmp::encode::write_uint` into a byte vector: appends the shortest
/// unsigned integer value of `val`.
#[verifier::external_body]
fn write_uint(buf: &mut Vec<u8>, val: u64)
    ensures
        final(buf)@ == old(buf)@ + mp_uint_bytes(val),
{
    let _ = rmp::encode::write_uint(buf, val);
}

/// `rmp::encode::write_str` into a byte vector: appends the shortest string
/// header for the length of `s`, then its bytes. (The length is written as
/// a `u32`, so longer strings are not taken.)
#[verifier::external_body]
fn write_str(buf: &mut Vec<u8>, s: &str)
    requires
        s.spec_bytes().len() <= u32::MAX,
    ensures
        final(buf)@ == old(buf)@ + mp_str_bytes(s.spec_bytes()),
{
    let _ = rmp::encode::write_str(buf, s);
}

/// `rmp::encode::write_nil` into a byte vector: appends the nil marker.
#[verifier::external_body]
fn write_nil(buf: &mut Vec<u8>)
    ensures
        final(buf)@ == old(buf)@ + mp_nil_bytes(),
{
    let _ = rmp::encode::write_nil(buf);
}

/// The error code name of `slots`, if any, is short enough for a
/// MessagePack string header.
pub open spec fn slot_code_fits<'a, S>(slots: ResponseSlots<'a, S>) -> bool {
    match slots {
        ResponseSlots::ErrorCode(c) => c.spec_bytes().len() <= u32::MAX,
        ResponseSlots::ErrorCodeObject(c, _) => c.spec_bytes().len() <= u32::MAX,
        _ => true,
    }
}

/// The bytes of a response `[1, id, error, result]` that come before the
/// serialized object of `slots` (or all of them when there is none).
pub open spec fn response_prefix<'a, S>(id: u32, slots: ResponseSlots<'a, S>) -> Seq<u8> {
    mp_array_header(4) + mp_uint_bytes(TYPE_ID_RESPONSE as u64) + mp_uint_bytes(id as u64) + match slots {
        ResponseSlots::Result(_) => mp_nil_bytes(),
        ResponseSlots::ErrorCode(c) => mp_array_header(2) + mp_str_bytes(c.spec_bytes()) + mp_nil_bytes(),
        ResponseSlots::ErrorObject(_) => Seq::empty(),
        ResponseSlots::ErrorCodeObject(c, _) => mp_array_header(2) + mp_str_bytes(c.spec_bytes()),
    }
}

/// The object of `slots` that is serialized between the prefix and the
/// suffix of a response.
pub open spec fn response_object<'a, S>(slots: ResponseSlots<'a, S>) -> Option<&'a S> {
    match slots {
        ResponseSlots::Result(o) => Some(o),
        ResponseSlots::ErrorCode(_) => None,
        ResponseSlots::ErrorObject(o) => Some(o),
        ResponseSlots::ErrorCodeObject(_, o) => Some(o),
    }
}

/// The bytes of a response that come after its serialized object: the nil
/// of an empty result slot.
pub open spec fn response_suffix<'a, S>(slots: ResponseSlots<'a, S>) -> Seq<u8> {
    match slots {
        ResponseSlots::Result(_) => Seq::empty(),
        _ => mp_nil_bytes(),
    }
}

/// The start of a request `[0, id, method, params]`, before its parameters.
pub open spec fn request_head(id: u32, method: Seq<u8>) -> Seq<u8> {
    mp_array_header(4) + mp_uint_bytes(TYPE_ID_REQUEST as u64) + mp_uint_bytes(id as u64) + mp_str_bytes(method)
}

/// The start of a notification `[2, method, params]`, before its parameters.
pub open spec fn notify_head(method: Seq<u8>) -> Seq<u8> {
    mp_array_header(3) + mp_uint_bytes(TYPE_ID_NOTIFICATION as u64) + mp_str_bytes(method)
}

proof fn lemma_be_uint_be16(x: u16)
    ensures
        be_uint(be16(x)) == x,
{
    let s = be16(x);
    reveal_with_fuel(be_uint, 3);
    assert(s.drop_last().drop_last() =~= Seq::<u8>::empty());
    let b0 = (x >> 8u16) as u8 as u16;
    let b1 = (x & 0xff) as u8 as u16;
    assert(x as int == b0 * 256 + b1) by (bit_vector)
        requires
            b0 == (x >> 8u16) as u8 as u16,
            b1 == (x & 0xff) as u8 as u16,
    ;
}

proof fn lemma_be_uint_be32(x: u32)
    ensures
        be_uint(be32(x)) == x,
{
    let s = be32(x);
    reveal_with_fuel(be_uint, 5);
    assert(s.drop_last().drop_last().drop_last().drop_last() =~= Seq::<u8>::empty());
    let b0 = (x >> 24u32) as u8 as u32;
    let b1 = ((x >> 16u32) & 0xff) as u8 as u32;
    let b2 = ((x >> 8u32) & 0xff) as u8 as u32;
    let b3 = (x & 0xff) as u8 as u32;
    assert(x as int == ((b0 * 256 + b1) * 256 + b2) * 256 + b3) by (bit_vector)
        requires
            b0 == (x >> 24u32) as u8 as u32,
            b1 == ((x >> 16u32) & 0xff) as u8 as u32,
            b2 == ((x >> 8u32) & 0xff) as u8 as u32,
            b3 == (x & 0xff) as u8 as u32,
    ;
}

/// An unsigned integer written as rmp writes it reads back as the same
/// integer, with the written bytes as its length.
proof fn lemma_read_uint(v: u32, rest: Seq<u8>)
    ensures
        mp_int(mp_uint_bytes(v as u64) + rest) == Some((v as int, mp_uint_bytes(v as u64).len() as int)),
{
    let w = mp_uint_bytes(v as u64);
    let b = w + rest;
    if v < 128 {
    } else if v < 256 {
        assert(b.subrange(1, 2) =~= seq![v as u8]);
        reveal_with_fuel(be_uint, 2);
        assert(seq![v as u8].drop_last() =~= Seq::<u8>::empty());
    } else if v < 0x10000 {
        assert(b.subrange(1, 3) =~= be16(v as u16));
        lemma_be_uint_be16(v as u16);
    } else {
        assert(b.subrange(1, 5) =~= be32(v));
        lemma_be_uint_be32(v);
    }
}

/// A string header written as rmp writes it reads back as the same length,
/// with the written bytes as the header's length.
proof fn lemma_read_str_header(l: u32, rest: Seq<u8>)
    ensures
        mp_str_len(mp_str_header(l) + rest) == Some((l, mp_str_header(l).len() as int)),
{
    let b = mp_str_header(l) + rest;
    if l < 32 {
    } else if l < 256 {
        assert(b.subrange(1, 2) =~= seq![l as u8]);
        reveal_with_fuel(be_uint, 2);
        assert(seq![l as u8].drop_last() =~= Seq::<u8>::empty());
    } else if l < 0x10000 {
        assert(b.subrange(1, 3) =~= be16(l as u16));
        lemma_be_uint_be16(l as u16);
    } else {
        assert(b.subrange(1, 5) =~= be32(l));
        lemma_be_uint_be32(l);
    }
}

/// A request written by [`Codec::request_head`] followed by any parameters
/// decodes as a request: its id span holds exactly the id that was written,
/// its method span the method name, and its params span the parameters.
#[verifier::rlimit(60)]
pub proof fn lemma_request_head_decodes(id: u32, method: Seq<u8>, params: Seq<u8>)
    requires
        method.len() <= u32::MAX,
        request_head(id, method).len() + params.len() <= u32::MAX,
    ensures
        ({
            let f = request_head(id, method) + params;
            &&& !method_overruns(f)
            &&& spec_decode(f) matches Some(InboundFrameType::Request { req_id_raw, method: ms, params: ps })
                && mp_int(f.subrange(req_id_raw.start as int, req_id_raw.end as int)) == Some(
                (id as int, req_id_raw.end - req_id_raw.start),
            ) && f.subrange(ms.start as int, ms.end as int) == method && f.subrange(
                ps.start as int,
                ps.end as int,
            ) == params
        }),
{
    let f = request_head(id, method) + params;
    let u = mp_uint_bytes(id as u64);
    let h = mp_str_header(method.len() as u32);
    let k = u.len() as int;
    let hl = h.len() as int;
    assert(method.len() as u32 as int == method.len());
    assert(f =~= seq![0x94u8] + (seq![0u8] + (u + (h + (method + params)))));
    assert(mp_array_header(4) =~= seq![0x94u8]);
    assert(mp_uint_bytes(TYPE_ID_REQUEST as u64) =~= seq![0u8]);
    assert(rest_of(f, 1) =~= seq![0u8] + (u + (h + (method + params))));
    assert(rest_of(f, 2) =~= u + (h + (method + params)));
    lemma_read_uint(0, u + (h + (method + params)));
    assert(mp_uint_bytes(0u32 as u64) =~= seq![0u8]);
    lemma_read_uint(id, h + (method + params));
    assert(frame_kind(f) == Some((4u32, 0int, 2int)));
    assert(rest_of(f, 2 + k) =~= h + (method + params));
    lemma_read_str_header(method.len() as u32, method + params);
    assert(call_id(f, 2, true) == Some(2 + k));
    assert(call_method(f, 2 + k) == Some((2 + k + hl, method.len() as int)));
    assert(f.subrange(2, 2 + k) =~= u);
    lemma_read_uint(id, Seq::<u8>::empty());
    assert(u + Seq::<u8>::empty() =~= u);
    assert(f.subrange(2 + k + hl, 2 + k + hl + method.len()) =~= method);
    assert(f.subrange(2 + k + hl + method.len(), f.len() as int) =~= params);
}

/// A notification written by [`Codec::notify_head`] followed by any
/// parameters decodes as a notification whose method span holds the method
/// name and whose params span holds the parameters.
#[verifier::rlimit(60)]
pub proof fn lemma_notify_head_decodes(method: Seq<u8>, params: Seq<u8>)
    requires
        method.len() <= u32::MAX,
        notify_head(method).len() + params.len() <= u32::MAX,
    ensures
        ({
            let f = notify_head(method) + params;
            &&& !method_overruns(f)
            &&& spec_decode(f) matches Some(InboundFrameType::Notify { method: ms, params: ps })
                && f.subrange(ms.start as int, ms.end as int) == method && f.subrange(
                ps.start as int,
                ps.end as int,
            ) == params
        }),
{
    let f = notify_head(method) + params;
    let h = mp_str_header(method.len() as u32);
    let hl = h.len() as int;
    assert(method.len() as u32 as int == method.len());
    assert(f =~= seq![0x93u8] + (seq![2u8] + (h + (method + params))));
    assert(mp_array_header(3) =~= seq![0x93u8]);
    assert(mp_uint_bytes(TYPE_ID_NOTIFICATION as u64) =~= seq![2u8]);
    assert(rest_of(f, 1) =~= seq![2u8] + (h + (method + params)));
    assert(rest_of(f, 2) =~= h + (method + params));
    lemma_read_uint(2, h + (method + params));
    assert(mp_uint_bytes(2u32 as u64) =~= seq![2u8]);
    assert(frame_kind(f) == Some((3u32, 2int, 2int)));
    lemma_read_str_header(method.len() as u32, method + params);
    assert(call_id(f, 2, false) == Some(2int));
    assert(call_method(f, 2) == Some((2 + hl, method.len() as int)));
    assert(f.subrange(2 + hl, 2 + hl + method.len()) =~= method);
    assert(f.subrange(2 + hl + method.len(), f.len() as int) =~= params);
}

/// A successful response laid out by [`Codec::response_frame_parts`] around
/// any result bytes decodes as a successful response to the same non-zero
/// id, whose payload span holds the result bytes.
#[verifier::rlimit(60)]
pub proof fn lemma_result_response_decodes<'a, S>(id: u32, obj: &'a S, result: Seq<u8>)
    requires
        id != 0,
        response_prefix(id, ResponseSlots::Result(obj)).len() + result.len() <= u32::MAX,
    ensures
        ({
            let f = response_prefix(id, ResponseSlots::Result(obj)) + result + response_suffix(
                ResponseSlots::Result(obj),
            );
            spec_decode(f) matches Some(InboundFrameType::Response { req_id, errc, payload })
                && req_id@ == id && errc is None && f.subrange(payload.start as int, payload.end as int)
                == result
        }),
{
    let f = response_prefix(id, ResponseSlots::Result(obj)) + result + response_suffix(
        ResponseSlots::Result(obj),
    );
    let u = mp_uint_bytes(id as u64);
    let k = u.len() as int;
    assert(f =~= seq![0x94u8] + (seq![1u8] + (u + (seq![0xc0u8] + result))));
    assert(mp_array_header(4) =~= seq![0x94u8]);
    assert(mp_uint_bytes(TYPE_ID_RESPONSE as u64) =~= seq![1u8]);
    assert(rest_of(f, 1) =~= seq![1u8] + (u + (seq![0xc0u8] + result)));
    assert(rest_of(f, 2) =~= u + (seq![0xc0u8] + result));
    lemma_read_uint(1, u + (seq![0xc0u8] + result));
    assert(mp_uint_bytes(1u32 as u64) =~= seq![1u8]);
    lemma_read_uint(id, seq![0xc0u8] + result);
    assert(frame_kind(f) == Some((4u32, 1int, 2int)));
    assert(rest_of(f, 2 + k) =~= seq![0xc0u8] + result);
    RequestId::lemma_with_value(id as u64, RequestId::with_value(id as u64));
    assert(f.subrange(3 + k, f.len() as int) =~= result);
}

/* --------------------------------------- Request ids & replies --------------------------------------- */

/// The request id that is sent for `v`: ids beyond 32 bits are cut to their
/// low 32 bits, and a cut that leaves 0 becomes 1.
pub open spec fn spec_wire_request_id(v: u64) -> u64 {
    if v > u32::MAX {
        if v & 0xffff_ffff != 0 {
            v & 0xffff_ffff
        } else {
            1
        }
    } else {
        v
    }
}

/// The id a request is sent with is a non-zero 32-bit value, and an id that
/// already fits 32 bits is sent unchanged.
pub proof fn lemma_wire_request_id(v: u64)
    requires
        v != 0,
    ensures
        0 < spec_wire_request_id(v) <= u32::MAX,
        v <= u32::MAX ==> spec_wire_request_id(v) == v,
{
    assert(v & 0xffff_ffff <= 0xffff_ffff) by (bit_vector);
}

/// For an id beyond 32 bits, the id that is sent is the id modulo 2^32,
/// unless that is zero, when it is 1; an id within 32 bits is sent as it is.
pub proof fn lemma_wire_request_id_modulo(v: u64)
    requires
        v != 0,
    ensures
        v % 0x1_0000_0000 != 0 ==> spec_wire_request_id(v) == v % 0x1_0000_0000,
        v % 0x1_0000_0000 == 0 ==> spec_wire_request_id(v) == 1,
        (spec_wire_request_id(v) as int - v as int) % 0x1_0000_0000 == 0 || v % 0x1_0000_0000 == 0,
{
    assert(v & 0xffff_ffff == v % 0x1_0000_0000) by (bit_vector);
    assert(v <= 0xffff_ffff ==> v % 0x1_0000_0000 == v) by (bit_vector);
    assert(v % 0x1_0000_0000 == 0 ==> v > 0xffff_ffff || v == 0) by (bit_vector);
    assert(((v % 0x1_0000_0000) as int - v as int) % 0x1_0000_0000 == 0) by (nonlinear_arith);
}

/// An id written as a MessagePack `uint 32` (marker `0xce`, then its four
/// big-endian bytes) reads back as the same id; a non-zero one restores to
/// the request id of that value.
pub proof fn lemma_u32_id_roundtrip(v: u32)
    ensures
        mp_u32(seq![0xceu8] + be32(v)) == Some(v),
{
    let s = seq![0xceu8] + be32(v);
    let t = s.subrange(1, 5);
    let b0 = (v >> 24u32) as u8;
    let b1 = ((v >> 16u32) & 0xff) as u8;
    let b2 = ((v >> 8u32) & 0xff) as u8;
    let b3 = (v & 0xff) as u8;
    assert(t =~= seq![b0, b1, b2, b3]);
    let t3 = t.drop_last();
    let t2 = t3.drop_last();
    let t1 = t2.drop_last();
    assert(t3 =~= seq![b0, b1, b2]);
    assert(t2 =~= seq![b0, b1]);
    assert(t1 =~= seq![b0]);
    assert(t1.drop_last() =~= Seq::<u8>::empty());
    assert(be_uint(t1) == b0 as nat) by {
        reveal_with_fuel(be_uint, 2);
    }
    assert(be_uint(t2) == be_uint(t1) * 256 + b1);
    assert(be_uint(t3) == be_uint(t2) * 256 + b2);
    assert(be_uint(t) == be_uint(t3) * 256 + b3);
    assert(((((v >> 24u32) as u8) as u32 * 256 + (((v >> 16u32) & 0xff) as u8) as u32) * 256 + (((v
        >> 8u32) & 0xff) as u8) as u32) * 256 + ((v & 0xff) as u8) as u32 == v) by (bit_vector);
}

/// The request id as it is read back from a reply: a leading MessagePack
/// `uint 32`.
pub fn retrieve_req_id(raw: &[u8]) -> (r: Option<u32>)
    ensures
        r == mp_u32(raw@),
{
    read_u32(raw)
}

/// The parts of a response after its type id and request id: the error slot
/// and the result slot.
pub enum ResponseSlots<'a, S> {
    /// `[.., nil, result]`
    Result(&'a S),
    /// `[.., [code, nil], nil]`
    ErrorCode(&'static str),
    /// `[.., object, nil]`
    ErrorObject(&'a S),
    /// `[.., [code, object], nil]`
    ErrorCodeObject(&'static str, &'a S),
}

impl Codec {
    /// The request id that a request with id `req_id` is sent with.
    pub fn request_id_for_wire(&self, req_id: RequestId) -> (r: RequestId)
        ensures
            r@ == spec_wire_request_id(req_id@),
    {
        let v = req_id.value();
        if v > u32::MAX as u64 {
            let low = v & (u32::MAX as u64);
            if low != 0 {
                RequestId::new(low)
            } else {
                RequestId::new(1)
            }
        } else {
            req_id
        }
    }

    /// Restores the request id written in a request's id slot.
    pub fn restore_request_id(&self, raw_id: &[u8]) -> (r: Result<RequestId, DecodeError>)
        ensures
            match mp_u32(raw_id@) {
                Some(v) => if v != 0 {
                    r matches Ok(id) && id@ == v
                } else {
                    r == Err::<RequestId, DecodeError>(DecodeError::InvalidFormat)
                },
                None => r == Err::<RequestId, DecodeError>(DecodeError::InvalidFormat),
            },
    {
        match retrieve_req_id(raw_id) {
            Some(v) => match RequestId::from_value(v as u64) {
                Some(id) => Ok(id),
                None => Err(DecodeError::InvalidFormat),
            },
            None => Err(DecodeError::InvalidFormat),
        }
    }

    /// Writes a response around its serialized object: the bytes before the
    /// object, the object of `slots` if it has one, and the bytes after it
    /// (see [`response_prefix`] and [`response_suffix`]).
    pub fn response_frame_parts<'a, S>(&self, id: u32, slots: ResponseSlots<'a, S>) -> (r: (
        Vec<u8>,
        Option<&'a S>,
        Vec<u8>,
    ))
        requires
            slot_code_fits(slots),
        ensures
            r.0@ == response_prefix(id, slots),
            r.1 == response_object(slots),
            r.2@ == response_suffix(slots),
    {
        let mut head: Vec<u8> = Vec::new();
        write_array_len(&mut head, 4);
        write_uint(&mut head, TYPE_ID_RESPONSE as u64);
        write_uint(&mut head, id as u64);
        let mut tail: Vec<u8> = Vec::new();
        let obj = match slots {
            ResponseSlots::Result(o) => {
                write_nil(&mut head);
                Some(o)
            },
            ResponseSlots::ErrorCode(c) => {
                write_array_len(&mut head, 2);
                write_str(&mut head, c);
                write_nil(&mut head);
                write_nil(&mut tail);
                None
            },
            ResponseSlots::ErrorObject(o) => {
                write_nil(&mut tail);
                Some(o)
            },
            ResponseSlots::ErrorCodeObject(c, o) => {
                write_array_len(&mut head, 2);
                write_str(&mut head, c);
                write_nil(&mut tail);
                Some(o)
            },
        };
        assert(head@ =~= response_prefix(id, slots));
        assert(tail@ =~= response_suffix(slots));
        (head, obj, tail)
    }

    /// The start of a request with id `req_id` for `method`, before its
    /// parameters: the id is sent as its wire form (see
    /// [`Codec::request_id_for_wire`]), which is also returned.
    pub fn request_head(&self, req_id: RequestId, method: &str) -> (r: (Vec<u8>, RequestId))
        requires
            method.spec_bytes().len() <= u32::MAX,
        ensures
            r.1@ == spec_wire_request_id(req_id@),
            r.0@ == request_head(r.1@ as u32, method.spec_bytes()),
    {
        let v = req_id.value();
        let wire = self.request_id_for_wire(req_id);
        proof {
            lemma_wire_request_id(v);
        }
        let id = wire.value() as u32;
        let mut head: Vec<u8> = Vec::new();
        write_array_len(&mut head, 4);
        write_uint(&mut head, TYPE_ID_REQUEST as u64);
        write_uint(&mut head, id as u64);
        write_str(&mut head, method);
        assert(head@ =~= request_head(wire@ as u32, method.spec_bytes()));
        (head, wire)
    }

    /// The start of a notification for `method`, before its parameters.
    pub fn notify_head(&self, method: &str) -> (r: Vec<u8>)
        requires
            method.spec_bytes().len() <= u32::MAX,
        ensures
            r@ == notify_head(method.spec_bytes()),
    {
        let mut head: Vec<u8> = Vec::new();
        write_array_len(&mut head, 3);
        write_uint(&mut head, TYPE_ID_NOTIFICATION as u64);
        write_str(&mut head, method);
        assert(head@ =~= notify_head(method.spec_bytes()));
        head
    }

    /// Decides the id and the error/result slots of the response to the
    /// request whose raw id bytes are `raw_req_id`. The id bytes must hold a
    /// MessagePack `uint 32`.
    pub fn response_parts<'a, S>(&self, raw_req_id: &[u8], result: EncodeResponsePayload<'a, S>) -> (r:
        Result<(u32, ResponseSlots<'a, S>), EncodeError>)
        ensures
            match mp_u32(raw_req_id@) {
                None => r == Err::<(u32, ResponseSlots<'a, S>), EncodeError>(
                    EncodeError::InvalidRequestId,
                ),
                Some(id) => r matches Ok((rid, slots)) && rid == id && match result {
                    EncodeResponsePayload::Okay(obj) => slots == ResponseSlots::Result(obj),
                    EncodeResponsePayload::ErrCodeOnly(ec) => slots matches ResponseSlots::ErrorCode(c)
                        && c@ == error_name(ec),
                    EncodeResponsePayload::ErrObjectOnly(obj) => slots == ResponseSlots::ErrorObject(
                        obj,
                    ),
                    EncodeResponsePayload::ErrCodeAndObject(ec, obj) => slots matches ResponseSlots::ErrorCodeObject(
                        c,
                        o,
                    ) && c@ == error_name(ec) && o == obj,
                },
            },
    {
        let req_id = match retrieve_req_id(raw_req_id) {
            Some(v) => v,
            None => return Err(EncodeError::InvalidRequestId),
        };
        let slots = match result {
            EncodeResponsePayload::Okay(obj) => ResponseSlots::Result(obj),
            EncodeResponsePayload::ErrCodeOnly(ec) => ResponseSlots::ErrorCode(ec.to_str()),
            EncodeResponsePayload::ErrObjectOnly(obj) => ResponseSlots::ErrorObject(obj),
            EncodeResponsePayload::ErrCodeAndObject(ec, obj) => ResponseSlots::ErrorCodeObject(
                ec.to_str(),
                obj,
            ),
        };
        Ok((req_id, slots))
    }
}

} // verus!
