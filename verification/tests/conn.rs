use std::cell::RefCell;

use bytes::Bytes;
use rpc_it::codec::DecodeError;
use rpc_it::conn::{
    error_response_outcome, internal_error_of, on_read, response_result, Connection, DeferredWrite,
    Dispatch, DriverEvent, DriverState, DriverStep, Feature, InboundBody, InboundDriverDirective,
    InboundError, InboundHeader, PredefinedResponseError, RecvMsg, ReqId, Request, RequestInner,
    ResponseError, ResponseMsg, SendError, NO_RECEIVE_NOTIFY, NO_RECEIVE_REQUEST,
};
use rpc_it::defs::RequestId;
use rpc_it::req::RequestContext;

struct Sink {
    open: bool,
    sent: RefCell<Vec<String>>,
}

impl Connection for &Sink {
    fn send_directive(&self, d: InboundDriverDirective) -> Result<(), InboundDriverDirective> {
        if !self.open {
            return Err(d);
        }
        let text = match d {
            InboundDriverDirective::DeferredWrite(DeferredWrite::ErrorResponse(_, e)) => format!("{e:?}"),
            InboundDriverDirective::DeferredWrite(DeferredWrite::Raw(b)) => format!("raw {}", b.len()),
            InboundDriverDirective::DeferredWrite(DeferredWrite::Flush) => "flush".to_string(),
            InboundDriverDirective::Close => "close".to_string(),
        };
        self.sent.borrow_mut().push(text);
        Ok(())
    }

    fn is_disconnected(&self) -> bool {
        !self.open
    }
}

fn inner() -> RequestInner {
    RequestInner {
        h: InboundBody { buffer: Bytes::from_static(b"frame"), payload: 1..3 },
        method: 3..5,
        req_id: ReqId::U64(8),
    }
}

#[test]
fn deferred_error_responses() {
    let sink = Sink { open: true, sent: RefCell::new(vec![]) };
    assert!(Request::new(inner(), &sink).abort_deferred().is_ok());
    assert!(Request::new(inner(), &sink).error_notify_handler_deferred().is_ok());
    assert!(Request::new(inner(), &sink).error_parse_failed_deferred("u32".to_string()).is_ok());
    assert!(Request::new(inner(), &sink).error_internal_deferred(7, None).is_ok());
    assert!(Request::new(inner(), &sink).error_internal_deferred(7, Some("why".into())).is_ok());
    assert!(Request::new(inner(), &sink).response_deferred_raw(Bytes::from_static(b"abc")).is_ok());
    Request::new(inner(), &sink).drop_unhandled();
    assert_eq!(
        *sink.sent.borrow(),
        vec![
            "Aborted".to_string(),
            "NotifyHandler".to_string(),
            "ParseFailed(\"u32\")".to_string(),
            "Internal(7)".to_string(),
            "InternalDetailed(7, \"why\")".to_string(),
            "raw 3".to_string(),
            "Unhandled".to_string(),
        ]
    );

    let closed = Sink { open: false, sent: RefCell::new(vec![]) };
    assert!(matches!(Request::new(inner(), &closed).abort_deferred(), Err(SendError::Disconnected)));
}

#[test]
fn internal_errors() {
    assert!(matches!(internal_error_of(3, None), PredefinedResponseError::Internal(3)));
    assert!(matches!(internal_error_of(3, Some("d".into())), PredefinedResponseError::InternalDetailed(3, d) if d == "d"));
}

#[test]
fn error_directive_carries_request() {
    let sink = Sink { open: true, sent: RefCell::new(vec![]) };
    let req = Request::new(inner(), &sink);
    assert_eq!(req.inner().method, 3..5);
    match req.error_directive(PredefinedResponseError::Aborted).0 {
        InboundDriverDirective::DeferredWrite(DeferredWrite::ErrorResponse(i, PredefinedResponseError::Aborted)) => {
            assert_eq!(i.h.payload, 1..3);
            assert!(matches!(i.req_id, ReqId::U64(8)));
        }
        _ => panic!("wrong directive"),
    }
}

#[test]
fn feature_flags() {
    let f = Feature(NO_RECEIVE_NOTIFY | NO_RECEIVE_REQUEST);
    assert!(f.contains(NO_RECEIVE_NOTIFY));
    assert!(Feature(NO_RECEIVE_REQUEST).contains(NO_RECEIVE_REQUEST));
    assert!(!Feature(NO_RECEIVE_REQUEST).contains(NO_RECEIVE_NOTIFY));
    assert!(Feature(0).contains(0));
}

#[test]
fn dispatch_requests_and_notifications() {
    let frame = Bytes::from_static(b"0123456789");
    let mut none: Option<RequestContext<ResponseMsg>> = None;
    let d = on_read(frame.clone(), Ok((InboundHeader::Notify { method: 0..2 }, 2..4)), 1u8, Feature(0), &mut none);
    assert!(matches!(d, Dispatch::Deliver(RecvMsg::Notify(n)) if n.method == (0..2) && n.sender == 1));
    let d = on_read(frame.clone(), Ok((InboundHeader::Notify { method: 0..2 }, 2..4)), 1u8, Feature(NO_RECEIVE_NOTIFY), &mut none);
    assert!(matches!(d, Dispatch::Report(InboundError::DisabledInbound(RecvMsg::Notify(_)))));

    let req = InboundHeader::Request { method: 0..2, req_id: ReqId::U64(4) };
    let d = on_read(frame.clone(), Ok((req, 2..4)), 1u8, Feature(NO_RECEIVE_NOTIFY), &mut none);
    assert!(matches!(d, Dispatch::Deliver(RecvMsg::Request(_))));
    let req = InboundHeader::Request { method: 0..2, req_id: ReqId::U64(4) };
    let d = on_read(frame.clone(), Ok((req, 2..4)), 1u8, Feature(NO_RECEIVE_REQUEST), &mut none);
    assert!(matches!(d, Dispatch::Report(InboundError::DisabledInbound(RecvMsg::Request(_)))));

    let d = on_read(frame, Err(DecodeError::InvalidFormat), 1u8, Feature(0), &mut none);
    assert!(matches!(d, Dispatch::Report(InboundError::InboundDecodeError(DecodeError::InvalidFormat, _))));
}

#[test]
fn dispatch_responses() {
    let frame = Bytes::from_static(b"0123456789");
    let resp = |hash| InboundHeader::Response { req_id: ReqId::U64(hash), req_id_hash: hash, is_error: false };

    let mut none: Option<RequestContext<ResponseMsg>> = None;
    let d = on_read(frame.clone(), Ok((resp(3), 0..1)), (), Feature(0), &mut none);
    assert!(matches!(d, Dispatch::Report(InboundError::RedundantResponse(_))));

    let mut ctx = Some(RequestContext::new());
    let id = ctx.as_mut().unwrap().next_req_id_base();
    ctx.as_mut().unwrap().register_req(id);

    let d = on_read(frame.clone(), Ok((resp(0), 0..1)), (), Feature(0), &mut ctx);
    assert!(matches!(d, Dispatch::Report(InboundError::ResponseHashZero(_))));
    let d = on_read(frame.clone(), Ok((resp(77), 0..1)), (), Feature(0), &mut ctx);
    assert!(matches!(d, Dispatch::Report(InboundError::ExpiredResponse(_))));
    let d = on_read(frame, Ok((resp(id.value()), 4..6)), (), Feature(0), &mut ctx);
    assert!(matches!(d, Dispatch::Routed));
    let got = ctx.as_mut().unwrap().take_ready(RequestId::new(id.value())).unwrap();
    assert_eq!(got.h.payload, 4..6);
    assert!(!got.is_error);
}

#[test]
fn driver_steps() {
    let mut s = DriverState::new();
    assert!(matches!(
        s.on_event(DriverEvent::Directive(Some(InboundDriverDirective::DeferredWrite(DeferredWrite::Flush)))),
        DriverStep::Forward(DeferredWrite::Flush)
    ));
    assert!(matches!(s.on_event(DriverEvent::Read(Ok(Bytes::from_static(b"f")))), DriverStep::Dispatch(_)));
    assert!(matches!(s.on_event(DriverEvent::Directive(Some(InboundDriverDirective::Close))), DriverStep::Exit(None)));
    assert!(matches!(s.on_event(DriverEvent::Directive(None)), DriverStep::Exit(None)));
    assert!(matches!(s.on_event(DriverEvent::BackgroundEnded(Ok(()))), DriverStep::Exit(None)));
    assert!(s.notify_clean_close());

    let mut s = DriverState::new();
    let e = std::io::Error::new(std::io::ErrorKind::BrokenPipe, "gone");
    assert!(matches!(s.on_event(DriverEvent::Read(Err(e))), DriverStep::Exit(Some((false, _)))));
    assert!(!s.notify_clean_close());

    let mut s = DriverState::new();
    let e = std::io::Error::new(std::io::ErrorKind::Other, "write");
    assert!(matches!(s.on_event(DriverEvent::BackgroundEnded(Err(e))), DriverStep::Exit(Some((true, _)))));
    assert!(s.close_from_remote);
}

#[test]
fn background_writer_verdicts() {
    assert!(error_response_outcome(Ok(())).is_ok());
    assert!(error_response_outcome(Err(SendError::Disconnected)).is_ok());
    assert!(error_response_outcome(Err(SendError::EncodeFailed(rpc_it::codec::EncodeError::NotReusable))).is_ok());
    let e = std::io::Error::new(std::io::ErrorKind::Other, "io");
    assert!(error_response_outcome(Err(SendError::IoError(e))).is_err());
}

#[test]
fn reading_response_results() {
    let r: Result<u8, ResponseError<u16>> = response_result(false, None, Ok(1), Ok(2));
    assert!(matches!(r, Ok(1)));
    let r: Result<u8, ResponseError<u16>> = response_result(false, None, Err(DecodeError::NonUtf8Input), Ok(2));
    assert!(matches!(r, Err(ResponseError::DecodeError(DecodeError::NonUtf8Input))));
    let r: Result<u8, ResponseError<u16>> = response_result(true, Some(PredefinedResponseError::Aborted), Ok(1), Ok(2));
    assert!(matches!(r, Err(ResponseError::Predefined(PredefinedResponseError::Aborted))));
    let r: Result<u8, ResponseError<u16>> = response_result(true, None, Ok(1), Ok(2));
    assert!(matches!(r, Err(ResponseError::Typed(2))));
    let r: Result<u8, ResponseError<u16>> = response_result(true, None, Ok(1), Err(DecodeError::UnsupportedAction));
    assert!(matches!(r, Err(ResponseError::DecodeError(DecodeError::UnsupportedAction))));
    assert!(matches!(ResponseError::<u8>::from(DecodeError::NonUtf8Input), ResponseError::DecodeError(_)));
}
