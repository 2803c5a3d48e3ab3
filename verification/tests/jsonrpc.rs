use rpc_it::codec::{DecodeError, DeserializeError, EncodeError, EncodeResponsePayload, InboundFrameType, ResponseError};
use rpc_it::conn::{InboundHeader, ReqId};
use rpc_it::defs::RequestId;
use rpc_it::jsonrpc::{
    errc_to_error, error_to_errc, req_id_from_str, request_id_text, Codec, ErrorEncodeData,
    MessageSpans, MsgId, RawData, RawErrorObject, ResponseBody, INTERNAL_ERROR,
};

#[test]
fn error_code_mapping() {
    assert_eq!(error_to_errc(ResponseError::InvalidArgument), -32602);
    assert_eq!(error_to_errc(ResponseError::MethodNotFound), -32601);
    assert_eq!(error_to_errc(ResponseError::NonUtf8MethodName), -32600);
    assert_eq!(error_to_errc(ResponseError::ParseFailed), -32700);
    assert_eq!(error_to_errc(ResponseError::Unauthorized), -32600);
    assert_eq!(error_to_errc(ResponseError::Busy), -41000 + 3);
    assert_eq!(error_to_errc(ResponseError::Unknown), -41000);

    assert_eq!(errc_to_error(-32600), ResponseError::InvalidArgument);
    assert_eq!(errc_to_error(-32601), ResponseError::MethodNotFound);
    assert_eq!(errc_to_error(-32602), ResponseError::InvalidArgument);
    assert_eq!(errc_to_error(-32700), ResponseError::ParseFailed);
    assert_eq!(errc_to_error(-41000 + 6), ResponseError::Unhandled);
    assert_eq!(errc_to_error(-41000 + 200), ResponseError::Unknown);
    assert_eq!(errc_to_error(0), ResponseError::Unknown);
    assert_eq!(errc_to_error(i64::MIN), ResponseError::Unknown);
}

#[test]
fn error_code_roundtrip() {
    for e in [
        ResponseError::Unknown,
        ResponseError::InvalidArgument,
        ResponseError::Busy,
        ResponseError::MethodNotFound,
        ResponseError::Aborted,
        ResponseError::Unhandled,
        ResponseError::ParseFailed,
    ] {
        assert_eq!(errc_to_error(error_to_errc(e)), e);
    }
    assert_eq!(errc_to_error(error_to_errc(ResponseError::Unauthorized)), ResponseError::InvalidArgument);
}

#[test]
fn request_id_text_and_back() {
    assert_eq!(request_id_text(RequestId::new(1)), b"1".to_vec());
    assert_eq!(request_id_text(RequestId::new(4096)), b"4096".to_vec());
    assert_eq!(request_id_text(RequestId::new(u64::MAX)), b"18446744073709551615".to_vec());
    for v in [1u64, 9, 10, 12345, u32::MAX as u64] {
        let text = String::from_utf8(request_id_text(RequestId::new(v))).unwrap();
        assert_eq!(req_id_from_str(&text).unwrap().value(), v);
    }
}

#[test]
fn request_id_parsing() {
    assert_eq!(req_id_from_str("77").unwrap().value(), 77);
    assert_eq!(req_id_from_str("12ab").unwrap().value(), 12);
    assert_eq!(req_id_from_str("+5").unwrap().value(), 5);
    assert_eq!(req_id_from_str("0").unwrap_err(), DecodeError::RequestIdRetrievalFailed);
    assert_eq!(req_id_from_str("abc").unwrap_err(), DecodeError::RequestIdRetrievalFailed);
    assert_eq!(req_id_from_str("").unwrap_err(), DecodeError::RequestIdRetrievalFailed);
    assert_eq!(req_id_from_str("-3").unwrap_err(), DecodeError::RequestIdRetrievalFailed);
    assert_eq!(req_id_from_str("4294967296").unwrap_err(), DecodeError::RequestIdRetrievalFailed);
}

fn raw() -> RawData {
    RawData { jsonrpc_is_v2: true, method: None, params: None, result: None, error: None, id: None }
}

#[test]
fn decode_frame_kinds() {
    let codec = Codec;
    let frame = br#"{"id":"12","x":1}"#;

    let mut r = raw();
    r.jsonrpc_is_v2 = false;
    assert!(matches!(codec.decode_frame(frame, &r), Err(DecodeError::UnsupportedProtocol)));

    let mut r = raw();
    r.method = Some(1..3);
    r.params = Some(4..6);
    r.id = Some(7..9);
    match codec.decode_frame(frame, &r).unwrap() {
        InboundFrameType::Request { req_id_raw, method, params } => {
            assert_eq!((req_id_raw, method, params), (7..9, 1..3, 4..6))
        }
        _ => panic!("not a request"),
    }

    let mut r = raw();
    r.method = Some(1..3);
    r.params = Some(4..6);
    assert!(matches!(codec.decode_frame(frame, &r).unwrap(), InboundFrameType::Notify { .. }));

    let mut r = raw();
    r.result = Some(10..11);
    r.id = Some(7..9);
    match codec.decode_frame(frame, &r).unwrap() {
        InboundFrameType::Response { req_id, errc, payload } => {
            assert_eq!(req_id.value(), 12);
            assert_eq!(errc, None);
            assert_eq!(payload, 10..11);
        }
        _ => panic!("not a response"),
    }

    let mut r = raw();
    r.error = Some(RawErrorObject { code: Some(-32601), data: None });
    r.id = Some(7..9);
    match codec.decode_frame(frame, &r).unwrap() {
        InboundFrameType::Response { errc, payload, .. } => {
            assert_eq!(errc, Some(ResponseError::MethodNotFound));
            assert_eq!(payload, 0..0);
        }
        _ => panic!("not a response"),
    }

    let mut r = raw();
    r.error = Some(RawErrorObject { code: None, data: Some(2..3) });
    r.id = Some(7..9);
    match codec.decode_frame(frame, &r).unwrap() {
        InboundFrameType::Response { errc, payload, .. } => {
            assert_eq!(errc, Some(errc_to_error(INTERNAL_ERROR)));
            assert_eq!(payload, 2..3);
        }
        _ => panic!("not a response"),
    }

    let mut r = raw();
    r.result = Some(10..11);
    r.id = Some(2..4);
    assert_eq!(codec.decode_frame(frame, &r).unwrap_err(), DecodeError::RequestIdRetrievalFailed);

    let r = raw();
    assert_eq!(codec.decode_frame(frame, &r).unwrap_err(), DecodeError::ParseFailed(DeserializeError));
}

#[test]
fn response_parts_members() {
    let codec = Codec;
    let obj = 7u32;
    let (id, body) = codec.response_parts(b"42", EncodeResponsePayload::Okay(&obj)).unwrap();
    assert_eq!(id, "42");
    assert!(matches!(body, ResponseBody::Result(x) if *x == 7));

    let (_, body) = codec
        .response_parts::<u32>(b"42", EncodeResponsePayload::ErrCodeOnly(ResponseError::Busy))
        .unwrap();
    match body {
        ResponseBody::Error(e) => {
            assert_eq!(e.code, -41000 + 3);
            assert_eq!(e.message, "Server is too busy!");
            assert!(matches!(e.data, ErrorEncodeData::Msg("Server is too busy!")));
        }
        _ => panic!("not an error"),
    }

    let (_, body) = codec.response_parts(b"1", EncodeResponsePayload::ErrObjectOnly(&obj)).unwrap();
    match body {
        ResponseBody::Error(e) => {
            assert_eq!(e.code, -32603);
            assert_eq!(e.message, "internal error");
        }
        _ => panic!("not an error"),
    }

    assert!(matches!(
        codec.response_parts(&[0xff, 0xfe], EncodeResponsePayload::Okay(&obj)),
        Err(EncodeError::NonUtf8StringRequestId)
    ));
}

fn spans() -> MessageSpans {
    MessageSpans { id: None, method: None, params: None, error: None, result: None }
}

#[test]
fn decode_message_kinds() {
    let codec = Codec;

    let mut f = spans();
    f.id = Some(MsgId::Int(5));
    f.method = Some(1..4);
    f.params = Some(6..9);
    match codec.decode_message(&f).unwrap() {
        (InboundHeader::Request { method, req_id: ReqId::U64(5) }, payload) => {
            assert_eq!((method, payload), (1..4, 6..9))
        }
        _ => panic!("not a request"),
    }

    let mut f = spans();
    f.id = Some(MsgId::Str(10..12));
    f.method = Some(1..4);
    match codec.decode_message(&f).unwrap() {
        (InboundHeader::Request { req_id: ReqId::Bytes(r), .. }, payload) => {
            assert_eq!((r, payload), (10..12, 0..0))
        }
        _ => panic!("not a request"),
    }

    let mut f = spans();
    f.method = Some(1..4);
    assert!(matches!(codec.decode_message(&f).unwrap(), (InboundHeader::Notify { .. }, p) if p == (0..0)));

    let mut f = spans();
    f.id = Some(MsgId::Int(9));
    f.error = Some(20..30);
    match codec.decode_message(&f).unwrap() {
        (InboundHeader::Response { req_id: ReqId::U64(9), req_id_hash: 9, is_error: true }, p) => {
            assert_eq!(p, 20..30)
        }
        _ => panic!("not an error response"),
    }

    let mut f = spans();
    f.id = Some(MsgId::Int(9));
    f.result = Some(3..5);
    assert!(matches!(
        codec.decode_message(&f).unwrap(),
        (InboundHeader::Response { is_error: false, .. }, p) if p == (3..5)
    ));

    let mut f = spans();
    f.id = Some(MsgId::Null);
    f.method = Some(1..4);
    assert_eq!(codec.decode_message(&f).unwrap_err(), DecodeError::InvalidFormat);

    let mut f = spans();
    f.id = Some(MsgId::Str(1..2));
    f.result = Some(3..5);
    assert_eq!(codec.decode_message(&f).unwrap_err(), DecodeError::InvalidFormat);

    let mut f = spans();
    f.id = Some(MsgId::Int(1));
    f.result = Some(3..5);
    f.error = Some(6..7);
    assert_eq!(codec.decode_message(&f).unwrap_err(), DecodeError::InvalidFormat);

    let mut f = spans();
    f.method = Some(1..2);
    f.result = Some(3..5);
    assert_eq!(codec.decode_message(&f).unwrap_err(), DecodeError::InvalidFormat);

    assert_eq!(codec.decode_message(&spans()).unwrap_err(), DecodeError::InvalidFormat);
}
