use rpc_it::codec::{DecodeError, EncodeError, EncodeResponsePayload, InboundFrameType, ResponseError};
use rpc_it::defs::RequestId;
use rpc_it::rawrpc::{id_from_bytes, id_to_bytes, range_of, Codec, Head, HeadSpans, RawResponse};

#[test]
fn id_bytes_roundtrip() {
    assert_eq!(id_to_bytes(RequestId::new(0x0102)), [2, 1, 0, 0, 0, 0, 0, 0]);
    for v in [1u64, 255, 0x1234_5678_9abc_def0, u64::MAX] {
        let b = id_to_bytes(RequestId::new(v));
        assert_eq!(id_from_bytes(&b).unwrap().value(), v);
    }
    assert!(id_from_bytes(&[0; 8]).is_none());
    assert!(id_from_bytes(&[1, 2, 3]).is_none());
    assert_eq!(id_from_bytes(&[5, 0, 0, 0, 0, 0, 0, 0, 9]).unwrap().value(), 5);
}

#[test]
fn spans_of_frame_parts() {
    assert_eq!(range_of(10, 2, 3), 2..5);
    assert_eq!(range_of(10, 10, 0), 10..10);
}

fn spans() -> HeadSpans {
    HeadSpans { request_id: 1..9, method: 9..12, payload: 12..20 }
}

#[test]
fn decode_heads() {
    let codec = Codec;
    let id = [7u8, 0, 0, 0, 0, 0, 0, 0];
    match codec.decode_head(&Head::Notify("abc"), &spans()).unwrap() {
        InboundFrameType::Notify { method, params } => assert_eq!((method, params), (9..12, 12..20)),
        _ => panic!("not a notification"),
    }
    match codec.decode_head(&Head::Request(&id, "abc"), &spans()).unwrap() {
        InboundFrameType::Request { req_id_raw, .. } => assert_eq!(req_id_raw, 1..9),
        _ => panic!("not a request"),
    }
    match codec.decode_head(&Head::Response(&id), &spans()).unwrap() {
        InboundFrameType::Response { req_id, errc, payload } => {
            assert_eq!((req_id.value(), errc, payload), (7, None, 12..20))
        }
        _ => panic!("not a response"),
    }
    match codec.decode_head(&Head::ResponseErr(&id, 4), &spans()).unwrap() {
        InboundFrameType::Response { errc, .. } => assert_eq!(errc, Some(ResponseError::MethodNotFound)),
        _ => panic!("not a response"),
    }
    assert_eq!(
        codec.decode_head(&Head::Response(&[0; 8]), &spans()).map(|_| ()),
        Err(DecodeError::InvalidFormat)
    );
}

#[test]
fn response_heads() {
    let codec = Codec;
    let id = [7u8, 0, 0, 0, 0, 0, 0, 0];
    let obj = 1u16;
    let (idb, body) = codec.response_parts(&id, EncodeResponsePayload::Okay(&obj)).unwrap();
    assert_eq!(idb, id);
    assert!(matches!(body, RawResponse::Okay(x) if *x == 1));
    let (_, body) = codec
        .response_parts::<u16>(&id, EncodeResponsePayload::ErrCodeOnly(ResponseError::Busy))
        .unwrap();
    assert!(matches!(body, RawResponse::Error(3, None)));
    let (_, body) = codec.response_parts(&id, EncodeResponsePayload::ErrObjectOnly(&obj)).unwrap();
    assert!(matches!(body, RawResponse::Error(0, Some(_))));
    assert!(matches!(
        codec.response_parts(&[1, 2], EncodeResponsePayload::Okay(&obj)),
        Err(EncodeError::InvalidRequestId)
    ));
    assert_eq!(codec.restore_request_id(&id).unwrap().value(), 7);
}
