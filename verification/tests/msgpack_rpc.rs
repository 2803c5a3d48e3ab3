use rpc_it::codec::{DecodeError, DeserializeError, EncodeError, EncodeResponsePayload, InboundFrameType, ResponseError};
use rpc_it::defs::RequestId;
use rpc_it::msgpack_rpc::{retrieve_req_id, Codec, ResponseSlots};

#[test]
fn decode_request_frame() {
    let frame = [0x94, 0x00, 0x05, 0xa4, b'p', b'i', b'n', b'g', 0x91, 0x01];
    let codec = Codec;
    assert!(codec.method_in_bounds(&frame));
    match codec.decode_inbound(&frame).unwrap() {
        InboundFrameType::Request { req_id_raw, method, params } => {
            assert_eq!(req_id_raw, 2..3);
            assert_eq!(method, 4..8);
            assert_eq!(params, 8..10);
        }
        _ => panic!("not a request"),
    }
}

#[test]
fn decode_notification_frame() {
    let frame = [0x93, 0x02, 0xa2, b'h', b'i', 0xc0];
    match Codec.decode_inbound(&frame).unwrap() {
        InboundFrameType::Notify { method, params } => {
            assert_eq!(method, 3..5);
            assert_eq!(params, 5..6);
        }
        _ => panic!("not a notification"),
    }
}

#[test]
fn decode_response_frames() {
    let ok = [0x94, 0x01, 0x07, 0xc0, 0x2a];
    match Codec.decode_inbound(&ok).unwrap() {
        InboundFrameType::Response { req_id, errc, payload } => {
            assert_eq!(req_id.value(), 7);
            assert_eq!(errc, None);
            assert_eq!(payload, 4..5);
        }
        _ => panic!("not a response"),
    }

    let coded = [0x94, 0x01, 0x07, 0x92, 0xa4, b'B', b'u', b's', b'y', 0x01, 0xc0];
    match Codec.decode_inbound(&coded).unwrap() {
        InboundFrameType::Response { errc, payload, .. } => {
            assert_eq!(errc, Some(ResponseError::Busy));
            assert_eq!(payload, 9..10);
        }
        _ => panic!("not a response"),
    }

    let object_only = [0x94, 0x01, 0x07, 0x2a, 0xc0];
    match Codec.decode_inbound(&object_only).unwrap() {
        InboundFrameType::Response { errc, payload, .. } => {
            assert_eq!(errc, Some(ResponseError::Unknown));
            assert_eq!(payload, 3..4);
        }
        _ => panic!("not a response"),
    }

    let wide_id = [0x94, 0x01, 0xce, 0, 0, 1, 0, 0xc0, 0x01];
    match Codec.decode_inbound(&wide_id).unwrap() {
        InboundFrameType::Response { req_id, payload, .. } => {
            assert_eq!(req_id.value(), 256);
            assert_eq!(payload, 8..9);
        }
        _ => panic!("not a response"),
    }
}

#[test]
fn decode_rejects_other_frames() {
    let parse_failed = Err(DecodeError::ParseFailed(DeserializeError));
    // an unknown pair of array length and type id
    assert_eq!(Codec.decode_inbound(&[0x91, 0x00]).map(|_| ()), Err(DecodeError::InvalidFormat));
    assert_eq!(Codec.decode_inbound(&[0x94, 0x05, 0x00]).map(|_| ()), Err(DecodeError::InvalidFormat));
    assert_eq!(Codec.decode_inbound(&[0x2a]).map(|_| ()), parse_failed);
    assert_eq!(Codec.decode_inbound(&[]).map(|_| ()), parse_failed);
    // a response with id zero
    assert_eq!(Codec.decode_inbound(&[0x94, 0x01, 0x00, 0xc0, 0x01]).map(|_| ()), parse_failed);
    // an error response whose result slot is not nil
    assert_eq!(Codec.decode_inbound(&[0x94, 0x01, 0x07, 0x2a, 0x01]).map(|_| ()), Err(DecodeError::InvalidFormat));
    // a request whose id cannot be read
    assert_eq!(Codec.decode_inbound(&[0x94, 0x00, 0xc0, 0xa1, b'm']).map(|_| ()), parse_failed);
}

#[test]
fn method_bounds() {
    assert!(!Codec.method_in_bounds(&[0x94, 0x00, 0x05, 0xa9, b'a']));
    assert!(!Codec.method_in_bounds(&[0x93, 0x02, 0xa3, b'a']));
    assert!(Codec.method_in_bounds(&[0x94, 0x01, 0x07, 0xc0]));
    assert!(Codec.method_in_bounds(&[0x01]));
}

#[test]
fn request_ids_on_the_wire() {
    let codec = Codec;
    assert_eq!(codec.request_id_for_wire(RequestId::new(5)).value(), 5);
    assert_eq!(codec.request_id_for_wire(RequestId::new((1 << 32) + 3)).value(), 3);
    assert_eq!(codec.request_id_for_wire(RequestId::new(1 << 32)).value(), 1);

    assert_eq!(codec.restore_request_id(&[0xce, 0, 0, 0, 5]).unwrap().value(), 5);
    assert_eq!(codec.restore_request_id(&[0xce, 0, 0, 0, 0]).unwrap_err(), DecodeError::InvalidFormat);
    assert_eq!(codec.restore_request_id(&[0x05]).unwrap_err(), DecodeError::InvalidFormat);

    assert_eq!(retrieve_req_id(&[0xce, 1, 2, 3, 4]), Some(0x0102_0304));
    assert_eq!(retrieve_req_id(&[0xcd, 1, 2]), None);
}

#[test]
fn response_slots() {
    let codec = Codec;
    let obj = 3u8;
    let raw = [0xce, 0, 0, 0, 9];
    let (id, slots) = codec.response_parts(&raw, EncodeResponsePayload::Okay(&obj)).unwrap();
    assert_eq!(id, 9);
    assert!(matches!(slots, ResponseSlots::Result(x) if *x == 3));

    let (_, slots) =
        codec.response_parts::<u8>(&raw, EncodeResponsePayload::ErrCodeOnly(ResponseError::Busy)).unwrap();
    assert!(matches!(slots, ResponseSlots::ErrorCode("Busy")));

    let (_, slots) = codec
        .response_parts(&raw, EncodeResponsePayload::ErrCodeAndObject(ResponseError::Aborted, &obj))
        .unwrap();
    assert!(matches!(slots, ResponseSlots::ErrorCodeObject("Aborted", x) if *x == 3));

    assert!(matches!(
        codec.response_parts(&[0x09], EncodeResponsePayload::ErrObjectOnly(&obj)),
        Err(EncodeError::InvalidRequestId)
    ));
}

#[test]
fn response_frame_parts_lay_out_the_response() {
    let obj = 3u8;
    let (head, o, tail) = Codec.response_frame_parts(5, ResponseSlots::Result(&obj));
    assert_eq!(head, vec![0x94, 0x01, 0x05, 0xc0]);
    assert_eq!(o, Some(&3u8));
    assert!(tail.is_empty());

    let (head, o, tail) = Codec.response_frame_parts::<u8>(0x0102_0304, ResponseSlots::ErrorCode("Busy"));
    assert_eq!(head, vec![0x94, 0x01, 0xce, 1, 2, 3, 4, 0x92, 0xa4, b'B', b'u', b's', b'y', 0xc0]);
    assert_eq!(o, None);
    assert_eq!(tail, vec![0xc0]);

    let (head, o, tail) = Codec.response_frame_parts(9, ResponseSlots::ErrorObject(&obj));
    assert_eq!(head, vec![0x94, 0x01, 0x09]);
    assert_eq!(o, Some(&3u8));
    assert_eq!(tail, vec![0xc0]);

    let (head, o, tail) = Codec.response_frame_parts(9, ResponseSlots::ErrorCodeObject("Aborted", &obj));
    assert_eq!(head, vec![0x94, 0x01, 0x09, 0x92, 0xa7, b'A', b'b', b'o', b'r', b't', b'e', b'd']);
    assert_eq!(o, Some(&3u8));
    assert_eq!(tail, vec![0xc0]);
}

#[test]
fn request_and_notify_heads() {
    let (head, wire) = Codec.request_head(RequestId::new(7), "ping");
    assert_eq!(head, vec![0x94, 0x00, 0x07, 0xa4, b'p', b'i', b'n', b'g']);
    assert_eq!(wire.value(), 7);
    let (head, wire) = Codec.request_head(RequestId::new(0x1_0000_0003), "m");
    assert_eq!(head, vec![0x94, 0x00, 0x03, 0xa1, b'm']);
    assert_eq!(wire.value(), 3);
    assert_eq!(Codec.notify_head("m"), vec![0x93, 0x02, 0xa1, b'm']);
    // ids are written in their shortest form
    let (head, _) = Codec.request_head(RequestId::new(200), "m");
    assert_eq!(&head[..4], &[0x94, 0x00, 0xcc, 200]);
    let (head, _) = Codec.request_head(RequestId::new(0x1234), "m");
    assert_eq!(&head[..5], &[0x94, 0x00, 0xcd, 0x12, 0x34]);
    let (head, _) = Codec.request_head(RequestId::new(0xdead_beef), "m");
    assert_eq!(&head[..7], &[0x94, 0x00, 0xce, 0xde, 0xad, 0xbe, 0xef]);
    let long = "x".repeat(40);
    let head = Codec.notify_head(&long);
    assert_eq!(&head[..4], &[0x93, 0x02, 0xd9, 40]);
    assert_eq!(head.len(), 4 + 40);

    // a written request head with empty parameters decodes back
    let mut frame = Codec.request_head(RequestId::new(7), "ping").0;
    frame.push(0x90);
    assert!(matches!(Codec.decode_inbound(&frame), Ok(InboundFrameType::Request { .. })));
}
