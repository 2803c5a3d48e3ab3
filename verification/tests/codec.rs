use rpc_it::codec::{
    err_to_de_error, DecodeError, DeserializeError, EncodeError, EncodeResponsePayload, InboundFrameType,
    ResponseError,
};
use rpc_it::defs::{req_id_to_inner, to_req_range, NonZeroRangeType, RangeType, RequestId};

const ALL: [ResponseError; 9] = [
    ResponseError::Unknown,
    ResponseError::InvalidArgument,
    ResponseError::Unauthorized,
    ResponseError::Busy,
    ResponseError::MethodNotFound,
    ResponseError::Aborted,
    ResponseError::Unhandled,
    ResponseError::NonUtf8MethodName,
    ResponseError::ParseFailed,
];

#[test]
fn response_error_codes_roundtrip() {
    for (i, e) in ALL.iter().enumerate() {
        assert_eq!(e.code() as usize, i);
        assert_eq!(ResponseError::from_code(i as u8), *e);
        assert_eq!(u8::from(*e), i as u8);
        assert_eq!(ResponseError::from(i as u8), *e);
    }
    assert_eq!(ResponseError::from_code(9), ResponseError::Unknown);
    assert_eq!(ResponseError::from_code(255), ResponseError::Unknown);
}

#[test]
fn response_error_is_error_code() {
    assert!(!ResponseError::Unknown.is_error_code());
    for e in &ALL[1..] {
        assert!(e.is_error_code());
    }
    assert_eq!(ResponseError::default(), ResponseError::Unknown);
}

#[test]
fn response_error_names_roundtrip() {
    for e in ALL {
        assert_eq!(ResponseError::from_name(e.to_str()), Some(e));
    }
    assert_eq!(ResponseError::Busy.to_str(), "Busy");
    assert_eq!(ResponseError::from_name("busy"), None);
    assert_eq!(ResponseError::from_name(""), None);
}

#[test]
fn response_error_messages() {
    assert_eq!(ResponseError::Busy.message(), "Server is too busy!");
    assert_eq!(ResponseError::MethodNotFound.message(), "Requested method was not routed");
}

#[test]
fn error_conversions() {
    assert_eq!(err_to_de_error(std::fmt::Error), DeserializeError);
    assert_eq!(EncodeError::from(DeserializeError), EncodeError::SerializeFailed(DeserializeError));
    assert_eq!(DecodeError::from(DeserializeError), DecodeError::ParseFailed(DeserializeError));
}

#[test]
fn frame_type_clone_is_equal_shape() {
    let f = InboundFrameType::Response {
        req_id: RequestId::new(3),
        errc: Some(ResponseError::Busy),
        payload: 4..9,
    };
    match f.clone() {
        InboundFrameType::Response { req_id, errc, payload } => {
            assert_eq!(req_id.value(), 3);
            assert_eq!(errc, Some(ResponseError::Busy));
            assert_eq!(payload, 4..9);
        }
        _ => panic!("shape changed"),
    }
    let x = 5u32;
    match EncodeResponsePayload::ErrCodeAndObject(ResponseError::Aborted, &x) {
        EncodeResponsePayload::ErrCodeAndObject(c, o) => assert_eq!((c, *o), (ResponseError::Aborted, 5)),
        _ => unreachable!(),
    }
}

#[test]
fn ranges_and_request_ids() {
    assert_eq!(RangeType::from(3u32..7).range(), 3..7);
    let r = NonZeroRangeType::new(2, 10);
    assert_eq!((r.begin(), r.end()), (2, 10));
    assert_eq!(r.range(), 2..10);

    let packed = req_id_to_inner(Some(NonZeroRangeType::new(5, 9)));
    assert_eq!(packed, 5 | (9 << 32));
    let back = to_req_range(packed).unwrap();
    assert_eq!((back.begin(), back.end()), (5, 9));
    assert_eq!(req_id_to_inner(None), 0);
    assert!(to_req_range(0).is_none());
    assert!(to_req_range(0xffff_ffff).is_none());

    assert_eq!(RequestId::new(42).value(), 42);
    assert!(RequestId::from_value(0).is_none());
    assert_eq!(RequestId::from_value(7).map(|x| x.value()), Some(7));
}
