use bytes::Bytes;
use rpc_it::codec::{DecodeError, EncodeResponsePayload, ResponseError};
use rpc_it::defs::RequestId;
use rpc_it::codec::InboundFrameType;
use rpc_it::inbound::{handle_inbound_checked, handle_inbound_once, Inbound, ReceiveError};
use rpc_it::msgpack_rpc::Codec;
use std::cell::RefCell;

use rpc_it::codec::EncodeError;
use rpc_it::rpc::{
    RequestContext, ResponseData, ResponsePayload, TrySendFailure, TrySendMsgError, TrySendResponseError,
    WriterDirective,
};
use rpc_it::sender::DirectiveChannel;

struct Queue {
    full: bool,
    frames: RefCell<Vec<Vec<u8>>>,
}

impl DirectiveChannel for Queue {
    fn try_send(&self, d: WriterDirective) -> Result<(), TrySendFailure<WriterDirective>> {
        if self.full {
            return Err(TrySendFailure::Full(d));
        }
        if let WriterDirective::WriteMsg(b) = &d {
            self.frames.borrow_mut().push(b.to_vec());
        }
        Ok(())
    }

    fn close(&self) {}
}

fn encode_echo(id: &[u8], p: EncodeResponsePayload<'_, u8>) -> Result<Bytes, EncodeError> {
    let mut out = id.to_vec();
    match p {
        EncodeResponsePayload::Okay(v) => out.push(*v),
        EncodeResponsePayload::ErrCodeOnly(c) => out.push(100 + c.code()),
        _ => return Err(EncodeError::UnsupportedAction),
    }
    Ok(Bytes::from(out))
}

fn receive(
    frame: &'static [u8],
    reqs: &mut Option<RequestContext<ResponseData>>,
) -> Result<Option<Inbound<&'static str>>, ReceiveError<&'static str>> {
    let decoded = Codec.decode_inbound(frame);
    handle_inbound_once("owner", "codec", Bytes::from_static(frame), decoded, reqs)
}

const REQUEST: &[u8] = &[0x94, 0x00, 0x05, 0xa4, b'p', b'i', b'n', b'g', 0x91, 0x01];

#[test]
fn request_is_answered_once() {
    let mut reqs = None;
    let mut ib = receive(REQUEST, &mut reqs).ok().flatten().unwrap();
    assert_eq!(ib.method(), "ping");
    assert_eq!(ib.payload_bytes(), &[0x91, 0x01]);
    assert_eq!(ib.request_id(), Some(&[0x05u8][..]));
    assert!(ib.is_request());

    let payload = ResponsePayload(Ok(1u8));
    let (span, shape) = ib.prepare_response(&payload).unwrap();
    assert_eq!((span.begin(), span.end()), (2, 3));
    assert!(matches!(shape, EncodeResponsePayload::Okay(1)));
    assert_eq!(ib.request_id_bytes(span), &[0x05]);
    assert!(!ib.is_request());
    assert_eq!(ib.request_id(), None);
    assert!(ib.prepare_response(&payload).is_none());
}

#[test]
fn notifications_are_not_requests() {
    let mut reqs = None;
    let mut ib = receive(&[0x93, 0x02, 0xa2, b'h', b'i', 0xc0], &mut reqs).ok().flatten().unwrap();
    assert_eq!(ib.method(), "hi");
    assert!(!ib.is_request());
    let payload: ResponsePayload<()> = ResponsePayload::from(ResponseError::Busy);
    assert!(ib.prepare_response(&payload).is_none());
}

#[test]
fn take_and_clone_messages() {
    let mut reqs = None;
    let mut ib = receive(REQUEST, &mut reqs).ok().flatten().unwrap();
    let mut copy = ib.clone_message(false);
    assert_eq!(copy.method(), "ping");
    assert!(!copy.is_request());
    assert!(ib.is_request());

    let mut owner = ib.clone_message(true);
    assert!(owner.is_request());
    assert!(!ib.is_request());

    let moved = owner.take();
    assert!(moved.is_request());
    assert_eq!(moved.method(), "ping");
    assert_eq!(owner.method(), "");
    assert!(!owner.is_request());
    assert!(copy.take_request().is_none());
}

#[test]
fn non_utf8_method_names_are_refused() {
    let mut reqs = None;
    match receive(&[0x93, 0x02, 0xa2, 0xff, 0xfe, 0xc0], &mut reqs) {
        Err(ReceiveError::NonUtf8MethodName(frame, range)) => {
            assert_eq!(frame.len(), 6);
            assert_eq!(range, 3..5);
        }
        _ => panic!("expected a method-name error"),
    }
}

#[test]
fn decode_failures_are_reported() {
    let mut reqs = None;
    let r = handle_inbound_once("o", "c", Bytes::from_static(b"x"), Err(DecodeError::NonUtf8Input), &mut reqs);
    assert!(matches!(r, Err(ReceiveError::DecodeFailed(DecodeError::NonUtf8Input, _))));
}

#[test]
fn responses_fill_pending_slots() {
    let frame: &'static [u8] = &[0x94, 0x01, 0x07, 0xc0, 0x2a];
    let mut none = None;
    match receive(frame, &mut none) {
        Err(ReceiveError::UnhandledResponse(Ok(resp))) => {
            assert_eq!(resp.payload.as_ref(), &[0x2a]);
            assert_eq!(resp.codec, "codec");
        }
        _ => panic!("expected an unhandled response"),
    }

    let mut ctx = RequestContext::new();
    let id = RequestId::new(7);
    assert!(ctx.try_allocate_new_request(id, ResponseData::Waiting));
    let mut reqs = Some(ctx);
    assert!(matches!(receive(frame, &mut reqs), Ok(None)));
    match reqs.as_mut().unwrap().free_request_id(id) {
        ResponseData::Ready(payload, errc) => {
            assert_eq!(payload.as_ref(), &[0x2a]);
            assert_eq!(errc, None);
        }
        _ => panic!("slot not ready"),
    }

    // no request 7 is pending any more
    let coded: &'static [u8] = &[0x94, 0x01, 0x07, 0x92, 0xa4, b'B', b'u', b's', b'y', 0x01, 0xc0];
    match receive(coded, &mut reqs) {
        Err(ReceiveError::UnhandledResponse(Err(e))) => assert_eq!(e.errc(), ResponseError::Busy),
        _ => panic!("expected an unhandled error response"),
    }
}

#[test]
fn set_response_needs_a_pending_request() {
    let mut ctx: RequestContext<ResponseData> = RequestContext::new();
    let id = RequestId::new(3);
    assert!(ctx.set_response(id, Bytes::from_static(b"a"), None).is_err());
    ctx.try_allocate_new_request(id, ResponseData::Waiting);
    assert!(ctx.set_response(id, Bytes::from_static(b"a"), Some(ResponseError::Aborted)).is_ok());
}

#[test]
fn responding_through_the_writer() {
    let queue = Queue { full: false, frames: RefCell::new(vec![]) };
    let mut reqs = None;
    let mut ib = receive(REQUEST, &mut reqs).ok().flatten().unwrap();
    assert_eq!(ib.try_response(Some(&queue), &ResponsePayload(Ok(9u8)), encode_echo), Ok(()));
    assert_eq!(*queue.frames.borrow(), vec![vec![0x05, 9]]);
    assert_eq!(
        ib.try_response(Some(&queue), &ResponsePayload(Ok(9u8)), encode_echo),
        Err(TrySendResponseError::InboundNotRequest)
    );

    let mut ib = receive(REQUEST, &mut reqs).ok().flatten().unwrap();
    let refused: ResponsePayload<u8> = ResponsePayload(Err((ResponseError::Busy, Some(1))));
    assert_eq!(
        ib.try_response(Some(&queue), &refused, encode_echo),
        Err(TrySendResponseError::MsgError(TrySendMsgError::EncodeFailed(EncodeError::UnsupportedAction)))
    );
    assert!(!ib.is_request());

    let mut ib = receive(REQUEST, &mut reqs).ok().flatten().unwrap();
    assert_eq!(
        ib.try_response::<u8, Queue, _>(None, &ResponsePayload(Ok(1u8)), encode_echo),
        Err(TrySendResponseError::MsgError(TrySendMsgError::ChannelClosed))
    );

    let full = Queue { full: true, frames: RefCell::new(vec![]) };
    let mut ib = receive(REQUEST, &mut reqs).ok().flatten().unwrap();
    assert_eq!(
        ib.try_response(Some(&full), &ResponsePayload(Ok(1u8)), encode_echo),
        Err(TrySendResponseError::MsgError(TrySendMsgError::ChannelAtCapacity))
    );
}

#[test]
fn dropping_requests_and_reusing_packets() {
    let mut reqs = None;
    let mut ib = receive(REQUEST, &mut reqs).ok().flatten().unwrap();
    let packet = ib.clone_reusable_packet::<()>(3).unwrap();
    assert_eq!(packet.hash(), 3);
    assert_eq!(packet.data().as_ref(), REQUEST);
    assert!(ib.clone_reusable_packet::<()>(0).is_none());
    ib.drop_request();
    assert!(!ib.is_request());
    assert_eq!(ib.method(), "ping");
}

#[test]
fn invalidated_requests_are_closed() {
    let mut ctx: RequestContext<ResponseData> = RequestContext::new();
    let id = RequestId::new(8);
    ctx.invalidate_request(id);
    assert!(!ctx.is_pending(id));
    ctx.try_allocate_new_request(id, ResponseData::Waiting);
    ctx.invalidate_request(id);
    assert!(matches!(ctx.free_request_id(id), ResponseData::Closed));
}

#[test]
fn checked_handling_refuses_spans_past_the_frame() {
    let mut reqs: Option<RequestContext<ResponseData>> = None;
    let past = InboundFrameType::Notify { method: 0..9, params: 0..1 };
    let r = handle_inbound_checked("o", "c", Bytes::from_static(b"abc"), Ok(past), &mut reqs);
    assert!(r.is_none());
    assert!(reqs.is_none());

    let within = InboundFrameType::Notify { method: 0..2, params: 2..3 };
    let r = handle_inbound_checked("o", "c", Bytes::from_static(b"abc"), Ok(within), &mut reqs);
    let ib = r.unwrap().ok().flatten().unwrap();
    assert_eq!(ib.method(), "ab");
    assert_eq!(ib.payload_bytes(), b"c");

    let failed = handle_inbound_checked("o", "c", Bytes::from_static(b"x"), Err(DecodeError::NonUtf8Input), &mut reqs);
    assert!(matches!(failed, Some(Err(ReceiveError::DecodeFailed(DecodeError::NonUtf8Input, _)))));
}
