//! The fixed 8-byte message header and the request-id byte encodings of the
//! raw message delivery protocol.
//!
//! Word `b0` (big-endian on the wire) packs the message type in bits 30..32,
//! the route length in bits 20..30, the request-id length in bits 16..20 and,
//! for replies, the reply code in bits 8..16. Word `p` is the payload length.

use vstd::prelude::*;

verus! {

pub const MAX_ROUTE_LEN: usize = 1024;
pub const PKT_TYPE_OFFSET: usize = 30;
pub const PKT_TYPE_MASK: u32 = 0b11;
pub const ROUTE_LEN_MASK: u32 = 0x3ff;
pub const ERRC_MASK: u32 = 0xff;
pub const ROUTE_LEN_OFFSET: usize = 20;
pub const ERRC_OFFSET: usize = 8;

/// Integer type of request ids carried in the raw protocol.
pub type IdType = u64;

/// Number of bytes of an [`IdType`].
pub const ID_MAX_LEN: usize = 8;
/// Mask of the 4-bit request-id length field (bits 16..20).
pub const REQ_ID_LEN_MASK: u32 = 0xf;
pub const REQ_ID_LEN_OFFSET: usize = 16;

/// The response code for the request.
#[derive(Clone, Copy, Debug, PartialEq, Eq, Structural)]
pub enum ReplyCode {
    /// Successful.
    Okay,
    /// Request is canceled by not handling reply structure.
    Aborted,
    /// There was no route to handle the request.
    NoRoute,
    /// Unknown error.
    Unkown,
    /// User returned error.
    UserError,
    /// User error - invalid data format.
    ParseFailed,
    /// User error - invalid argument received.
    InvalidArgument,
    /// User error - invalid state.
    InvalidState,
}

/// The numeric value of each reply code on the wire.
pub open spec fn reply_code_value(c: ReplyCode) -> u8 {
    match c {
        ReplyCode::Okay => 0,
        ReplyCode::Aborted => 1,
        ReplyCode::NoRoute => 2,
        ReplyCode::Unkown => 4,
        ReplyCode::UserError => 100,
        ReplyCode::ParseFailed => 101,
        ReplyCode::InvalidArgument => 102,
        ReplyCode::InvalidState => 103,
    }
}

/// The reply code whose wire value is `v`, if any.
pub open spec fn reply_code_of(v: u8) -> Option<ReplyCode> {
    if v == 0 {
        Some(ReplyCode::Okay)
    } else if v == 1 {
        Some(ReplyCode::Aborted)
    } else if v == 2 {
        Some(ReplyCode::NoRoute)
    } else if v == 4 {
        Some(ReplyCode::Unkown)
    } else if v == 100 {
        Some(ReplyCode::UserError)
    } else if v == 101 {
        Some(ReplyCode::ParseFailed)
    } else if v == 102 {
        Some(ReplyCode::InvalidArgument)
    } else if v == 103 {
        Some(ReplyCode::InvalidState)
    } else {
        None
    }
}

impl ReplyCode {
    /// The wire value of this code.
    pub fn to_u8(self) -> (v: u8)
        ensures
            v == reply_code_value(self),
    {
        match self {
            ReplyCode::Okay => 0,
            ReplyCode::Aborted => 1,
            ReplyCode::NoRoute => 2,
            ReplyCode::Unkown => 4,
            ReplyCode::UserError => 100,
            ReplyCode::ParseFailed => 101,
            ReplyCode::InvalidArgument => 102,
            ReplyCode::InvalidState => 103,
        }
    }

    /// The code whose wire value is `v`; `None` for values that name no code.
    pub fn from_u8(v: u8) -> (c: Option<ReplyCode>)
        ensures
            c == reply_code_of(v),
    {
        match v {
            0 => Some(ReplyCode::Okay),
            1 => Some(ReplyCode::Aborted),
            2 => Some(ReplyCode::NoRoute),
            4 => Some(ReplyCode::Unkown),
            100 => Some(ReplyCode::UserError),
            101 => Some(ReplyCode::ParseFailed),
            102 => Some(ReplyCode::InvalidArgument),
            103 => Some(ReplyCode::InvalidState),
            _ => None,
        }
    }
}

/// Every reply code survives the round trip through its wire value, and a
/// wire value that names a code is that code's value.
pub proof fn lemma_reply_code_roundtrip(c: ReplyCode, v: u8)
    ensures
        reply_code_of(reply_code_value(c)) == Some(c),
        reply_code_of(v) matches Some(d) ==> reply_code_value(d) == v,
{
}


/// Error from parsing a raw header word.
#[derive(Clone, Copy, Debug, PartialEq, Eq, Structural)]
pub enum ParseError {
    /// The message type field holds the reserved value.
    InvalidType(u8),
    /// The reply code field names no [`ReplyCode`].
    InvalidErrCode(u8),
}

/// Header of a notification: `[0..n)` route, `[n]` 0, `[n+1..p)` payload.
#[derive(Clone, Copy, Debug, PartialEq, Eq, Structural)]
pub struct HNoti {
    pub n_route: u16,
    pub n_all: u32,
}

/// Header of a request: `[0..m)` request id, `[m..m+n)` route, `[m+n]` 0,
/// `[m+n+1..p)` payload.
#[derive(Clone, Copy, Debug, PartialEq, Eq, Structural)]
pub struct HReq {
    pub n_route: u16,
    pub n_req_id: u8,
    pub n_all: u32,
}

/// Header of a reply: `[0..m)` request id, `[m..p)` payload.
#[derive(Clone, Copy, Debug, PartialEq, Eq, Structural)]
pub struct HRep {
    pub errc: ReplyCode,
    pub n_req_id: u8,
    pub n_all: u32,
}

/// A parsed message header.
#[derive(Clone, Copy, Debug, PartialEq, Eq, Structural)]
pub enum Head {
    Noti(HNoti),
    Req(HReq),
    Rep(HRep),
}

impl Head {
    /// The header with its length fields cut to the widths the wire word
    /// holds (10 bits of route length, 4 bits of request-id length).
    pub open spec fn canonical(self) -> Head {
        match self {
            Head::Noti(h) => Head::Noti(HNoti { n_route: h.n_route & 0x3ff, n_all: h.n_all }),
            Head::Req(h) => Head::Req(
                HReq { n_route: h.n_route & 0x3ff, n_req_id: h.n_req_id & 0xf, n_all: h.n_all },
            ),
            Head::Rep(h) => Head::Rep(
                HRep { errc: h.errc, n_req_id: h.n_req_id & 0xf, n_all: h.n_all },
            ),
        }
    }

    /// The length fields fit the widths of the wire word.
    pub open spec fn fits(self) -> bool {
        match self {
            Head::Noti(h) => h.n_route <= 0x3ff,
            Head::Req(h) => h.n_route <= 0x3ff && h.n_req_id <= 0xf,
            Head::Rep(h) => h.n_req_id <= 0xf,
        }
    }
}

/// The first header word that encodes `h`.
pub open spec fn head_word(h: Head) -> u32 {
    match h {
        Head::Noti(x) => (0u32 << 30u32) | (((x.n_route as u32) & 0x3ff) << 20u32),
        Head::Req(x) => (1u32 << 30u32) | (((x.n_route as u32) & 0x3ff) << 20u32) | (((
        x.n_req_id as u32) & 0xf) << 16u32),
        Head::Rep(x) => (2u32 << 30u32) | (((x.n_req_id as u32) & 0xf) << 16u32) | ((
        reply_code_value(x.errc) as u32) << 8u32),
    }
}

/// The payload length word of `h`.
pub open spec fn head_len(h: Head) -> u32 {
    match h {
        Head::Noti(x) => x.n_all,
        Head::Req(x) => x.n_all,
        Head::Rep(x) => x.n_all,
    }
}

/// What parsing the header words `(b0, p)` yields.
pub open spec fn parse_words(b0: u32, p: u32) -> Result<Head, ParseError> {
    let t = (b0 >> 30u32) & 3;
    let n = (b0 >> 20u32) & 0x3ff;
    let m = (b0 >> 16u32) & 0xf;
    let e = (b0 >> 8u32) & 0xff;
    if t == 0 {
        Ok(Head::Noti(HNoti { n_route: n as u16, n_all: p }))
    } else if t == 1 {
        Ok(Head::Req(HReq { n_route: n as u16, n_req_id: m as u8, n_all: p }))
    } else if t == 2 {
        match reply_code_of(e as u8) {
            Some(c) => Ok(Head::Rep(HRep { errc: c, n_req_id: m as u8, n_all: p })),
            None => Err(ParseError::InvalidErrCode(e as u8)),
        }
    } else {
        Err(ParseError::InvalidType(t as u8))
    }
}

/// The raw 8-byte header: two 32-bit words in network byte order.
#[derive(Clone, Copy, Debug)]
pub struct RawHead {
    b0: u32,
    p: u32,
}

impl View for RawHead {
    type V = (u32, u32);

    closed spec fn view(&self) -> (u32, u32) {
        (self.b0, self.p)
    }
}

/// The four big-endian bytes of `x`.
pub open spec fn be32(x: u32) -> Seq<u8> {
    seq![(x >> 24u32) as u8, ((x >> 16u32) & 0xff) as u8, ((x >> 8u32) & 0xff) as u8, (x & 0xff) as u8]
}

/// The value of four big-endian bytes.
pub open spec fn be32_value(b0: u8, b1: u8, b2: u8, b3: u8) -> u32 {
    ((b0 as u32) << 24u32) | ((b1 as u32) << 16u32) | ((b2 as u32) << 8u32) | (b3 as u32)
}

/// The wire bytes of the header words `w`.
pub open spec fn words_to_bytes(w: (u32, u32)) -> Seq<u8> {
    be32(w.0) + be32(w.1)
}

/// The header words that 8 wire bytes hold.
pub open spec fn bytes_to_words(b: Seq<u8>) -> (u32, u32) {
    (be32_value(b[0], b[1], b[2], b[3]), be32_value(b[4], b[5], b[6], b[7]))
}

proof fn lemma_be32_fields(x: u32)
    ensures
        be32_value((x >> 24u32) as u8, ((x >> 16u32) & 0xff) as u8, ((x >> 8u32) & 0xff) as u8, (x & 0xff) as u8) == x,
{
    assert(be32_value((x >> 24u32) as u8, ((x >> 16u32) & 0xff) as u8, ((x >> 8u32) & 0xff) as u8, (x & 0xff) as u8) == x) by (bit_vector);
}

proof fn lemma_be32_bytes(b0: u8, b1: u8, b2: u8, b3: u8)
    ensures
        be32(be32_value(b0, b1, b2, b3)) == seq![b0, b1, b2, b3],
{
    let v = be32_value(b0, b1, b2, b3);
    assert((v >> 24u32) as u8 == b0) by (bit_vector)
        requires v == ((b0 as u32) << 24u32) | ((b1 as u32) << 16u32) | ((b2 as u32) << 8u32) | (b3 as u32);
    assert(((v >> 16u32) & 0xff) as u8 == b1) by (bit_vector)
        requires v == ((b0 as u32) << 24u32) | ((b1 as u32) << 16u32) | ((b2 as u32) << 8u32) | (b3 as u32);
    assert(((v >> 8u32) & 0xff) as u8 == b2) by (bit_vector)
        requires v == ((b0 as u32) << 24u32) | ((b1 as u32) << 16u32) | ((b2 as u32) << 8u32) | (b3 as u32);
    assert((v & 0xff) as u8 == b3) by (bit_vector)
        requires v == ((b0 as u32) << 24u32) | ((b1 as u32) << 16u32) | ((b2 as u32) << 8u32) | (b3 as u32);
    assert(be32(v) =~= seq![b0, b1, b2, b3]);
}

fn be32_value_exec(b0: u8, b1: u8, b2: u8, b3: u8) -> (v: u32)
    ensures
        v == be32_value(b0, b1, b2, b3),
{
    ((b0 as u32) << 24u32) | ((b1 as u32) << 16u32) | ((b2 as u32) << 8u32) | (b3 as u32)
}

impl RawHead {
    /// Reads a header from its 8 wire bytes (network byte order).
    pub fn from_bytes(value: [u8; 8]) -> (r: RawHead)
        ensures
            r@ == bytes_to_words(value@),
    {
        RawHead {
            b0: be32_value_exec(value[0], value[1], value[2], value[3]),
            p: be32_value_exec(value[4], value[5], value[6], value[7]),
        }
    }

    /// The 8 wire bytes of this header (network byte order).
    pub fn to_bytes(&self) -> (r: [u8; 8])
        ensures
            r@ == words_to_bytes(self@),
    {
        let b = self.b0;
        let p = self.p;
        let r = [
            (b >> 24u32) as u8,
            ((b >> 16u32) & 0xff) as u8,
            ((b >> 8u32) & 0xff) as u8,
            (b & 0xff) as u8,
            (p >> 24u32) as u8,
            ((p >> 16u32) & 0xff) as u8,
            ((p >> 8u32) & 0xff) as u8,
            (p & 0xff) as u8,
        ];
        assert(r@ =~= be32(b) + be32(p));
        r
    }

    /// Encodes a parsed header.
    pub fn new(this: Head) -> (r: RawHead)
        ensures
            r@ == (head_word(this), head_len(this)),
    {
        match this {
            Head::Noti(HNoti { n_route: n, n_all: p }) => RawHead {
                b0: (0b00u32 << PKT_TYPE_OFFSET) | (((n as u32) & ROUTE_LEN_MASK) << ROUTE_LEN_OFFSET),
                p,
            },
            Head::Req(HReq { n_route: n, n_req_id: m, n_all: p }) => RawHead {
                b0: (0b01u32 << PKT_TYPE_OFFSET) | (((n as u32) & ROUTE_LEN_MASK)
                    << ROUTE_LEN_OFFSET) | (((m as u32) & REQ_ID_LEN_MASK) << REQ_ID_LEN_OFFSET),
                p,
            },
            Head::Rep(HRep { errc: e, n_req_id: m, n_all: p }) => RawHead {
                b0: (0b10u32 << PKT_TYPE_OFFSET) | (((m as u32) & REQ_ID_LEN_MASK)
                    << REQ_ID_LEN_OFFSET) | ((e.to_u8() as u32) << ERRC_OFFSET),
                p,
            },
        }
    }

    /// Decodes the header words.
    pub fn parse(&self) -> (r: Result<Head, ParseError>)
        ensures
            r == parse_words(self@.0, self@.1),
    {
        let t = (self.b0 >> PKT_TYPE_OFFSET) & PKT_TYPE_MASK;
        let n = (self.b0 >> ROUTE_LEN_OFFSET) & ROUTE_LEN_MASK;
        let m = (self.b0 >> REQ_ID_LEN_OFFSET) & REQ_ID_LEN_MASK;
        let e = (self.b0 >> ERRC_OFFSET) & ERRC_MASK;
        if t == 0 {
            Ok(Head::Noti(HNoti { n_route: n as u16, n_all: self.p }))
        } else if t == 1 {
            Ok(Head::Req(HReq { n_route: n as u16, n_req_id: m as u8, n_all: self.p }))
        } else if t == 2 {
            match ReplyCode::from_u8(e as u8) {
                Some(c) => Ok(Head::Rep(HRep { errc: c, n_req_id: m as u8, n_all: self.p })),
                None => Err(ParseError::InvalidErrCode(e as u8)),
            }
        } else {
            Err(ParseError::InvalidType(t as u8))
        }
    }
}

/// Parsing the encoding of any header gives that header back, with its
/// length fields cut to the widths of the wire word.
pub proof fn lemma_parse_new(h: Head)
    ensures
        parse_words(head_word(h), head_len(h)) == Ok::<Head, ParseError>(h.canonical()),
        h.fits() ==> h.canonical() == h,
{
    match h {
        Head::Noti(x) => {
            let n = x.n_route;
            let w = (0u32 << 30u32) | (((n as u32) & 0x3ff) << 20u32);
            assert((w >> 30u32) & 3 == 0) by (bit_vector)
                requires w == (0u32 << 30u32) | (((n as u32) & 0x3ff) << 20u32);
            assert(((w >> 20u32) & 0x3ff) as u16 == n & 0x3ff) by (bit_vector)
                requires w == (0u32 << 30u32) | (((n as u32) & 0x3ff) << 20u32);
            assert(n <= 0x3ff ==> n & 0x3ff == n) by (bit_vector);
        },
        Head::Req(x) => {
            let n = x.n_route;
            let m = x.n_req_id;
            let w = (1u32 << 30u32) | (((n as u32) & 0x3ff) << 20u32) | (((m as u32) & 0xf) << 16u32);
            assert((w >> 30u32) & 3 == 1) by (bit_vector)
                requires w == (1u32 << 30u32) | (((n as u32) & 0x3ff) << 20u32) | (((m as u32) & 0xf) << 16u32);
            assert(((w >> 20u32) & 0x3ff) as u16 == n & 0x3ff) by (bit_vector)
                requires w == (1u32 << 30u32) | (((n as u32) & 0x3ff) << 20u32) | (((m as u32) & 0xf) << 16u32);
            assert(((w >> 16u32) & 0xf) as u8 == m & 0xf) by (bit_vector)
                requires w == (1u32 << 30u32) | (((n as u32) & 0x3ff) << 20u32) | (((m as u32) & 0xf) << 16u32);
            assert(n <= 0x3ff ==> n & 0x3ff == n) by (bit_vector);
            assert(m <= 0xf ==> m & 0xf == m) by (bit_vector);
        },
        Head::Rep(x) => {
            let m = x.n_req_id;
            let e = reply_code_value(x.errc);
            let w = (2u32 << 30u32) | (((m as u32) & 0xf) << 16u32) | ((e as u32) << 8u32);
            assert((w >> 30u32) & 3 == 2) by (bit_vector)
                requires w == (2u32 << 30u32) | (((m as u32) & 0xf) << 16u32) | ((e as u32) << 8u32);
            assert(((w >> 16u32) & 0xf) as u8 == m & 0xf) by (bit_vector)
                requires w == (2u32 << 30u32) | (((m as u32) & 0xf) << 16u32) | ((e as u32) << 8u32);
            assert(((w >> 8u32) & 0xff) as u8 == e) by (bit_vector)
                requires w == (2u32 << 30u32) | (((m as u32) & 0xf) << 16u32) | ((e as u32) << 8u32);
            assert(m <= 0xf ==> m & 0xf == m) by (bit_vector);
        },
    }
}

/// The bit layout of the first header word, as the protocol lays it out:
/// the message type in bits 30..32 (0 notification, 1 request, 2 reply),
/// the route length in bits 20..30, the request-id length in bits 16..20
/// and the reply code in bits 8..16; every other bit is zero.
pub proof fn lemma_head_word_layout(h: Head)
    ensures
        ({
            let w = head_word(h);
            match h {
                Head::Noti(x) => w / 0x4000_0000 == 0 && (w / 0x10_0000) % 0x400 == x.n_route % 0x400
                    && w % 0x10_0000 == 0,
                Head::Req(x) => w / 0x4000_0000 == 1 && (w / 0x10_0000) % 0x400 == x.n_route % 0x400
                    && (w / 0x1_0000) % 0x10 == x.n_req_id % 0x10 && w % 0x1_0000 == 0,
                Head::Rep(x) => w / 0x4000_0000 == 2 && (w / 0x10_0000) % 0x400 == 0 && (w / 0x1_0000)
                    % 0x10 == x.n_req_id % 0x10 && (w / 0x100) % 0x100 == reply_code_value(x.errc)
                    && w % 0x100 == 0,
            }
        }),
{
    match h {
        Head::Noti(x) => {
            let n = x.n_route;
            let w = (0u32 << 30u32) | (((n as u32) & 0x3ff) << 20u32);
            assert(w / 0x4000_0000 == 0 && (w / 0x10_0000) % 0x400 == n % 0x400 && w % 0x10_0000 == 0)
                by (bit_vector)
                requires
                    w == (0u32 << 30u32) | (((n as u32) & 0x3ff) << 20u32),
            ;
        },
        Head::Req(x) => {
            let n = x.n_route;
            let m = x.n_req_id;
            let w = (1u32 << 30u32) | (((n as u32) & 0x3ff) << 20u32) | (((m as u32) & 0xf) << 16u32);
            assert(w / 0x4000_0000 == 1 && (w / 0x10_0000) % 0x400 == n % 0x400 && (w / 0x1_0000) % 0x10
                == m % 0x10 && w % 0x1_0000 == 0) by (bit_vector)
                requires
                    w == (1u32 << 30u32) | (((n as u32) & 0x3ff) << 20u32) | (((m as u32) & 0xf) << 16u32),
            ;
        },
        Head::Rep(x) => {
            let m = x.n_req_id;
            let e = reply_code_value(x.errc);
            let w = (2u32 << 30u32) | (((m as u32) & 0xf) << 16u32) | ((e as u32) << 8u32);
            assert(w / 0x4000_0000 == 2 && (w / 0x10_0000) % 0x400 == 0 && (w / 0x1_0000) % 0x10 == m
                % 0x10 && (w / 0x100) % 0x100 == e && w % 0x100 == 0) by (bit_vector)
                requires
                    w == (2u32 << 30u32) | (((m as u32) & 0xf) << 16u32) | ((e as u32) << 8u32),
            ;
        },
    }
}

/// Parsing reads the fields of the first header word from the bits the
/// protocol gives them: the type from bits 30..32, the route length from
/// bits 20..30, the request-id length from bits 16..20 and the reply code
/// from bits 8..16; the payload length is the second word.
pub proof fn lemma_parse_layout(b0: u32, p: u32)
    ensures
        b0 / 0x4000_0000 == 0 ==> parse_words(b0, p) == Ok::<Head, ParseError>(
            Head::Noti(HNoti { n_route: ((b0 / 0x10_0000) % 0x400) as u16, n_all: p }),
        ),
        b0 / 0x4000_0000 == 1 ==> parse_words(b0, p) == Ok::<Head, ParseError>(
            Head::Req(
                HReq {
                    n_route: ((b0 / 0x10_0000) % 0x400) as u16,
                    n_req_id: ((b0 / 0x1_0000) % 0x10) as u8,
                    n_all: p,
                },
            ),
        ),
        b0 / 0x4000_0000 == 2 ==> parse_words(b0, p) == match reply_code_of(((b0 / 0x100) % 0x100) as u8) {
            Some(c) => Ok::<Head, ParseError>(
                Head::Rep(HRep { errc: c, n_req_id: ((b0 / 0x1_0000) % 0x10) as u8, n_all: p }),
            ),
            None => Err(ParseError::InvalidErrCode(((b0 / 0x100) % 0x100) as u8)),
        },
        b0 / 0x4000_0000 == 3 ==> parse_words(b0, p) == Err::<Head, ParseError>(ParseError::InvalidType(3)),
{
    assert((b0 >> 30u32) & 3 == b0 / 0x4000_0000) by (bit_vector);
    assert((b0 >> 20u32) & 0x3ff == (b0 / 0x10_0000) % 0x400) by (bit_vector);
    assert((b0 >> 16u32) & 0xf == (b0 / 0x1_0000) % 0x10) by (bit_vector);
    assert((b0 >> 8u32) & 0xff == (b0 / 0x100) % 0x100) by (bit_vector);
}

/// Reading back the wire bytes of header words gives the same words, and
/// writing out the words read from 8 bytes gives the same bytes.
pub proof fn lemma_bytes_roundtrip(w: (u32, u32), b: Seq<u8>)
    requires
        b.len() == 8,
    ensures
        bytes_to_words(words_to_bytes(w)) == w,
        words_to_bytes(bytes_to_words(b)) == b,
{
    lemma_be32_fields(w.0);
    lemma_be32_fields(w.1);
    lemma_be32_bytes(b[0], b[1], b[2], b[3]);
    lemma_be32_bytes(b[4], b[5], b[6], b[7]);
    assert(words_to_bytes(bytes_to_words(b)) =~= b);
}

impl HNoti {
    pub fn n(&self) -> (r: usize)
        ensures
            r == self.n_route,
    {
        self.n_route as usize
    }

    pub fn p(&self) -> (r: usize)
        ensures
            r == self.n_all,
    {
        self.n_all as usize
    }

    /// Span of the route.
    pub fn route(&self) -> (r: core::ops::Range<usize>)
        ensures
            r.start == 0,
            r.end == self.n_route,
    {
        0..self.n()
    }

    /// Span of the payload, after the route and its terminating zero.
    pub fn payload(&self) -> (r: core::ops::Range<usize>)
        ensures
            r.start == self.n_route + 1,
            r.end == self.n_all,
    {
        (self.n() + 1)..self.p()
    }

    /// Span of the payload including one trailing byte.
    pub fn payload_c(&self) -> (r: core::ops::Range<usize>)
        requires
            self.n_all + 1 <= usize::MAX,
        ensures
            r.start == self.n_route + 1,
            r.end == self.n_all + 1,
    {
        (self.n() + 1)..(self.p() + 1)
    }
}

impl HReq {
    pub fn n(&self) -> (r: usize)
        ensures
            r == self.n_route,
    {
        self.n_route as usize
    }

    pub fn m(&self) -> (r: usize)
        ensures
            r == self.n_req_id,
    {
        self.n_req_id as usize
    }

    pub fn p(&self) -> (r: usize)
        ensures
            r == self.n_all,
    {
        self.n_all as usize
    }

    /// Span of the route, after the request id.
    pub fn route(&self) -> (r: core::ops::Range<usize>)
        ensures
            r.start == self.n_req_id,
            r.end == self.n_req_id + self.n_route,
    {
        self.m()..(self.m() + self.n())
    }

    /// Span of the payload, after request id, route and the terminating zero.
    pub fn payload(&self) -> (r: core::ops::Range<usize>)
        ensures
            r.start == self.n_req_id + self.n_route + 1,
            r.end == self.n_all,
    {
        (self.m() + self.n() + 1)..self.p()
    }

    /// Span of the payload including one trailing byte.
    pub fn payload_c(&self) -> (r: core::ops::Range<usize>)
        requires
            self.n_all + 1 <= usize::MAX,
        ensures
            r.start == self.n_req_id + self.n_route + 1,
            r.end == self.n_all + 1,
    {
        (self.m() + self.n() + 1)..(self.p() + 1)
    }

    /// Span of the request id.
    pub fn req_id(&self) -> (r: core::ops::Range<usize>)
        ensures
            r.start == 0,
            r.end == self.n_req_id,
    {
        0..self.m()
    }
}

impl HRep {
    pub fn m(&self) -> (r: usize)
        ensures
            r == self.n_req_id,
    {
        self.n_req_id as usize
    }

    pub fn p(&self) -> (r: usize)
        ensures
            r == self.n_all,
    {
        self.n_all as usize
    }

    /// Span of the payload, after the request id.
    pub fn payload(&self) -> (r: core::ops::Range<usize>)
        ensures
            r.start == self.n_req_id,
            r.end == self.n_all,
    {
        self.m()..self.p()
    }

    /// Span of the payload including one trailing byte.
    pub fn payload_c(&self) -> (r: core::ops::Range<usize>)
        requires
            self.n_all + 1 <= usize::MAX,
        ensures
            r.start == self.n_req_id,
            r.end == self.n_all + 1,
    {
        self.m()..(self.p() + 1)
    }

    /// Span of the request id.
    pub fn req_id(&self) -> (r: core::ops::Range<usize>)
        ensures
            r.start == 0,
            r.end == self.n_req_id,
    {
        0..self.m()
    }
}

/* ------------------------------------------- Request ids ------------------------------------------- */

/// The unsigned value of big-endian bytes.
pub open spec fn be_uint(s: Seq<u8>) -> nat
    decreases s.len(),
{
    if s.len() == 0 {
        0
    } else {
        be_uint(s.drop_last()) * 256 + s.last() as nat
    }
}

/// The eight big-endian bytes of `v`.
pub open spec fn be64(v: u64) -> Seq<u8> {
    seq![
        (v >> 56u64) as u8,
        ((v >> 48u64) & 0xff) as u8,
        ((v >> 40u64) & 0xff) as u8,
        ((v >> 32u64) & 0xff) as u8,
        ((v >> 24u64) & 0xff) as u8,
        ((v >> 16u64) & 0xff) as u8,
        ((v >> 8u64) & 0xff) as u8,
        (v & 0xff) as u8,
    ]
}

/// The last `min(len, ID_MAX_LEN)` bytes of `s`: the bytes that a request
/// id is read from.
pub open spec fn id_tail(s: Seq<u8>) -> Seq<u8> {
    if s.len() > 8 {
        s.subrange(s.len() - 8, s.len() as int)
    } else {
        s
    }
}

/// The index of the first non-zero byte of `s`, or `s.len()` if there is none.
pub open spec fn leading_zeros(s: Seq<u8>) -> nat
    decreases s.len(),
{
    if s.len() == 0 || s[0] != 0 {
        0
    } else {
        1 + leading_zeros(s.drop_first())
    }
}

pub open spec fn pow256(k: nat) -> nat
    decreases k,
{
    if k == 0 {
        1
    } else {
        256 * pow256((k - 1) as nat)
    }
}

proof fn lemma_be_uint_bound(s: Seq<u8>)
    ensures
        be_uint(s) < pow256(s.len()),
    decreases s.len(),
{
    if s.len() > 0 {
        lemma_be_uint_bound(s.drop_last());
        assert(be_uint(s.drop_last()) + 1 <= pow256((s.len() - 1) as nat));
        assert(be_uint(s) == be_uint(s.drop_last()) * 256 + s.last());
        assert((be_uint(s.drop_last()) + 1) * 256 <= pow256((s.len() - 1) as nat) * 256) by (nonlinear_arith)
            requires be_uint(s.drop_last()) + 1 <= pow256((s.len() - 1) as nat);
    }
}

proof fn lemma_pow256_mono(a: nat, b: nat)
    requires
        a <= b,
    ensures
        pow256(a) <= pow256(b),
    decreases b,
{
    if a < b {
        lemma_pow256_mono(a, (b - 1) as nat);
    }
}

/// Reads a request id: the big-endian value of the last (at most) eight
/// bytes of `val`; an empty slice reads as 0.
pub fn retrieve_req_id(val: &[u8]) -> (r: IdType)
    ensures
        r == be_uint(id_tail(val@)),
{
    let len = val.len();
    let start: usize = if len > ID_MAX_LEN { len - ID_MAX_LEN } else { 0 };
    let ghost tail = id_tail(val@);
    assert(tail =~= val@.subrange(start as int, len as int));
    let mut value: u64 = 0;
    let mut i: usize = start;
    while i < len
        invariant
            start <= i <= len,
            len == val@.len(),
            len - start <= 8,
            tail == val@.subrange(start as int, len as int),
            value == be_uint(val@.subrange(start as int, i as int)),
        decreases len - i,
    {
        let ghost pre = val@.subrange(start as int, i as int);
        let ghost nxt = val@.subrange(start as int, i + 1);
        assert(nxt.drop_last() =~= pre);
        proof {
            lemma_be_uint_bound(pre);
            lemma_pow256_mono((i - start) as nat, 7);
            reveal_with_fuel(pow256, 8);
        }
        value = value * 256 + val[i] as u64;
        i = i + 1;
    }
    assert(val@.subrange(start as int, len as int) =~= tail);
    value
}

proof fn lemma_be_uint_be64(v: u64)
    ensures
        be_uint(be64(v)) == v,
{
    let s = be64(v);
    reveal_with_fuel(be_uint, 9);
    assert(s.drop_last().drop_last().drop_last().drop_last().drop_last().drop_last().drop_last().drop_last() =~= Seq::<u8>::empty());
    let b0 = (v >> 56u64) as u8 as u64;
    let b1 = ((v >> 48u64) & 0xff) as u8 as u64;
    let b2 = ((v >> 40u64) & 0xff) as u8 as u64;
    let b3 = ((v >> 32u64) & 0xff) as u8 as u64;
    let b4 = ((v >> 24u64) & 0xff) as u8 as u64;
    let b5 = ((v >> 16u64) & 0xff) as u8 as u64;
    let b6 = ((v >> 8u64) & 0xff) as u8 as u64;
    let b7 = (v & 0xff) as u8 as u64;
    assert(v as int == ((((((b0 * 256 + b1) * 256 + b2) * 256 + b3) * 256 + b4) * 256 + b5) * 256 + b6) * 256 + b7) by (bit_vector)
        requires
            b0 == (v >> 56u64) as u8 as u64,
            b1 == ((v >> 48u64) & 0xff) as u8 as u64,
            b2 == ((v >> 40u64) & 0xff) as u8 as u64,
            b3 == ((v >> 32u64) & 0xff) as u8 as u64,
            b4 == ((v >> 24u64) & 0xff) as u8 as u64,
            b5 == ((v >> 16u64) & 0xff) as u8 as u64,
            b6 == ((v >> 8u64) & 0xff) as u8 as u64,
            b7 == (v & 0xff) as u8 as u64;
}

proof fn lemma_be_uint_strip_zero(s: Seq<u8>)
    requires
        s.len() > 0,
        s[0] == 0,
    ensures
        be_uint(s) == be_uint(s.drop_first()),
    decreases s.len(),
{
    if s.len() == 1 {
        assert(s.drop_last() =~= Seq::<u8>::empty());
        assert(s.drop_first() =~= Seq::<u8>::empty());
        assert(be_uint(s) == be_uint(s.drop_last()) * 256 + s.last() as nat);
    } else {
        lemma_be_uint_strip_zero(s.drop_last());
        assert(s.drop_last().drop_first() =~= s.drop_first().drop_last());
        assert(s.drop_first().last() == s.last());
        assert(be_uint(s.drop_first()) == be_uint(s.drop_first().drop_last()) * 256 + s.drop_first().last() as nat);
    }
}

proof fn lemma_be_uint_leading_zeros(s: Seq<u8>)
    ensures
        leading_zeros(s) <= s.len(),
        be_uint(s) == be_uint(s.subrange(leading_zeros(s) as int, s.len() as int)),
        leading_zeros(s) < s.len() ==> s[leading_zeros(s) as int] != 0,
        forall|j: int| 0 <= j < leading_zeros(s) ==> s[j] == 0,
    decreases s.len(),
{
    if s.len() == 0 || s[0] != 0 {
        assert(s.subrange(0, s.len() as int) =~= s);
    } else {
        lemma_be_uint_strip_zero(s);
        lemma_be_uint_leading_zeros(s.drop_first());
        let k = leading_zeros(s.drop_first());
        assert(s.drop_first().subrange(k as int, s.len() - 1) =~= s.subrange(k + 1int, s.len() as int));
        assert forall|j: int| 0 <= j < leading_zeros(s) implies s[j] == 0 by {
            if j > 0 {
                assert(s[j] == s.drop_first()[j - 1]);
            }
        }
    }
}

/// Writes the big-endian bytes of `val` into `buf` and returns them without
/// their leading zero bytes (the empty slice for 0).
pub fn store_req_id<'a>(val: IdType, buf: &'a mut [u8; 8]) -> (r: &'a [u8])
    ensures
        final(buf)@ == be64(val),
        r@ == be64(val).subrange(leading_zeros(be64(val)) as int, 8),
{
    *buf = [
        (val >> 56u64) as u8,
        ((val >> 48u64) & 0xff) as u8,
        ((val >> 40u64) & 0xff) as u8,
        ((val >> 32u64) & 0xff) as u8,
        ((val >> 24u64) & 0xff) as u8,
        ((val >> 16u64) & 0xff) as u8,
        ((val >> 8u64) & 0xff) as u8,
        (val & 0xff) as u8,
    ];
    assert(buf@ =~= be64(val));
    proof {
        lemma_be_uint_leading_zeros(be64(val));
    }
    let mut pos: usize = 0;
    while pos < ID_MAX_LEN && buf[pos] == 0
        invariant
            pos <= 8,
            buf@ == be64(val),
            pos <= leading_zeros(be64(val)),
            leading_zeros(be64(val)) <= 8,
            leading_zeros(be64(val)) < 8 ==> be64(val)[leading_zeros(be64(val)) as int] != 0,
        decreases 8 - pos,
    {
        pos = pos + 1;
    }
    let s: &[u8] = buf.as_slice();
    &s[pos..8]
}

/// A request id written by [`store_req_id`] reads back as the same id.
pub proof fn lemma_req_id_roundtrip(v: IdType)
    ensures
        be_uint(id_tail(be64(v).subrange(leading_zeros(be64(v)) as int, 8))) == v,
{
    lemma_be_uint_leading_zeros(be64(v));
    lemma_be_uint_be64(v);
}

} // verus!
