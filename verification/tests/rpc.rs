use bytes::Bytes;
use rpc_it::codec::DeserializeError;
use rpc_it::rpc::{cached_wait_result, poll_receive, CachedWaitError, ErrorResponse, ReceivePoll, Response};
use rpc_it::codec::{EncodeError, EncodeResponsePayload, ResponseError};
use rpc_it::defs::RequestId;
use rpc_it::rpc::{
    burst_into_directive, convert_deferred_action_err, convert_deferred_write_err, encode_payload,
    make_response, try_receive, PacketWriteBurst, PreparedPacket, RequestContext, ResponseData,
    ResponsePayload, ResponsePoll, ResponseReceiveError, SendMsgError, SendResponseError,
    TrySendFailure, TrySendMsgError, TrySendResponseError, WriteRunnerExitType, WriterAction,
    WriterDirective, WriterState, WriterStep,
};

#[test]
fn writer_actions_and_steps() {
    let mut w = WriterState::new();
    assert_eq!(w.exit_type, WriteRunnerExitType::AllHandleDropped);
    assert_eq!(w.action(&WriterDirective::Flush), WriterAction::Flush);
    assert_eq!(w.action(&WriterDirective::WriteMsg(Bytes::from_static(b"x"))), WriterAction::Write);
    assert_eq!(w.action(&WriterDirective::WriteMsgBurst(vec![])), WriterAction::WriteBurst);
    assert_eq!(
        w.action(&WriterDirective::WriteReqMsg(Bytes::new(), RequestId::new(1))),
        WriterAction::WriteRequest
    );
    assert_eq!(w.on_channel_end(), (false, WriteRunnerExitType::AllHandleDropped));
    assert_eq!(w.action(&WriterDirective::CloseAfterFlush), WriterAction::CloseChannel);
    assert_eq!(w.exit_type, WriteRunnerExitType::ManualClose);
    assert_eq!(w.on_channel_end(), (true, WriteRunnerExitType::ManualClose));
    assert_eq!(w.action(&WriterDirective::CloseImmediately), WriterAction::CloseNow);

    assert_eq!(w.after(WriterAction::CloseNow, true, true), WriterStep::Exit(WriteRunnerExitType::ManualCloseImmediate));
    assert_eq!(w.after(WriterAction::CloseNow, false, true), WriterStep::CloseFailed);
    assert_eq!(w.after(WriterAction::CloseChannel, false, true), WriterStep::Continue);
    assert_eq!(w.after(WriterAction::Flush, false, true), WriterStep::FlushFailed);
    assert_eq!(w.after(WriterAction::Write, false, true), WriterStep::WriteFailed);
    assert_eq!(w.after(WriterAction::WriteBurst, true, true), WriterStep::Continue);
    assert_eq!(w.after(WriterAction::WriteRequest, false, true), WriterStep::RequestWriteFailed);
    assert_eq!(w.after(WriterAction::WriteRequest, false, false), WriterStep::Continue);
}

#[test]
fn deferred_errors() {
    let full = TrySendFailure::Full(WriterDirective::WriteMsg(Bytes::new()));
    assert_eq!(convert_deferred_write_err(full), TrySendMsgError::ChannelAtCapacity);
    let closed = TrySendFailure::Closed(WriterDirective::Flush);
    assert_eq!(convert_deferred_write_err(closed), TrySendMsgError::ChannelClosed);
    let full = TrySendFailure::Full(WriterDirective::Flush);
    assert_eq!(convert_deferred_action_err(full), TrySendMsgError::ChannelAtCapacity);

    assert_eq!(SendMsgError::from(EncodeError::NotReusable), SendMsgError::EncodeFailed(EncodeError::NotReusable));
    assert_eq!(
        TrySendResponseError::from(TrySendMsgError::ChannelClosed),
        TrySendResponseError::MsgError(TrySendMsgError::ChannelClosed)
    );
    assert_eq!(
        SendResponseError::from(SendMsgError::ChannelClosed),
        SendResponseError::MsgError(SendMsgError::ChannelClosed)
    );
}

fn pkt(data: &'static [u8], hash: usize) -> PreparedPacket<()> {
    PreparedPacket::new_unchecked(Bytes::from_static(data), hash)
}

#[test]
fn packet_bursts() {
    assert!(matches!(PacketWriteBurst::from_packets(Vec::<PreparedPacket<()>>::new()), PacketWriteBurst::Empty));
    match PacketWriteBurst::from_packets(vec![pkt(b"a", 3)]) {
        PacketWriteBurst::Mono(p) => assert_eq!((p.hash(), p.data().as_ref()), (3, &b"a"[..])),
        _ => panic!("not mono"),
    }
    match PacketWriteBurst::from_packets(vec![pkt(b"a", 3), pkt(b"b", 3), pkt(b"c", 3)]) {
        PacketWriteBurst::Burst(h, chunks) => {
            assert_eq!(h, 3);
            assert_eq!(chunks, vec![Bytes::from_static(b"a"), Bytes::from_static(b"b"), Bytes::from_static(b"c")]);
        }
        _ => panic!("not a burst"),
    }
    assert!(matches!(
        PacketWriteBurst::from_packets(vec![pkt(b"a", 3), pkt(b"b", 4)]),
        PacketWriteBurst::ErrHashMismatch
    ));

    let copy = pkt(b"z", 9).clone();
    assert_eq!((copy.hash(), copy.data().as_ref()), (9, &b"z"[..]));
}

#[test]
fn bursts_into_directives() {
    assert!(matches!(burst_into_directive(PacketWriteBurst::<()>::Empty, 1), Ok(None)));
    assert!(matches!(burst_into_directive(PacketWriteBurst::<()>::ErrHashMismatch, 1), Err(EncodeError::NotReusable)));
    assert!(matches!(
        burst_into_directive(PacketWriteBurst::Mono(pkt(b"a", 2)), 2),
        Ok(Some((1, WriterDirective::WriteMsg(_))))
    ));
    assert!(matches!(burst_into_directive(PacketWriteBurst::Mono(pkt(b"a", 2)), 5), Err(EncodeError::NotReusable)));
    let burst = PacketWriteBurst::<()>::Burst(2, vec![Bytes::new(), Bytes::new()]);
    assert!(matches!(burst_into_directive(burst, 2), Ok(Some((2, WriterDirective::WriteMsgBurst(_))))));
}

#[test]
fn responses_by_error_code() {
    match make_response("codec", Bytes::from_static(b"p"), None) {
        Ok(r) => assert_eq!((r.codec, r.payload.as_ref()), ("codec", &b"p"[..])),
        Err(_) => panic!("expected success"),
    }
    match make_response("codec", Bytes::new(), Some(ResponseError::Busy)) {
        Err(e) => assert_eq!(e.errc(), ResponseError::Busy),
        Ok(_) => panic!("expected error"),
    }
}

#[test]
fn response_slots_polling() {
    let mut d = ResponseData::Waiting;
    assert!(matches!(d.poll(), ResponsePoll::Pending));
    let mut d = ResponseData::Ready(Bytes::from_static(b"x"), None);
    assert!(matches!(d.poll(), ResponsePoll::Ready(Some((_, None)))));
    assert!(matches!(d, ResponseData::PendingRemove));
    let mut d = ResponseData::Closed;
    assert!(matches!(d.poll(), ResponsePoll::Ready(None)));
}

#[test]
fn try_receive_outcomes() {
    let mut slot = Some(ResponseData::Waiting);
    assert!(matches!(try_receive((), true, &mut slot), Err(ResponseReceiveError::Closed)));
    assert!(matches!(try_receive((), false, &mut slot), Err(ResponseReceiveError::Empty)));
    assert!(slot.is_some());

    let mut slot = Some(ResponseData::Ready(Bytes::from_static(b"ok"), None));
    assert!(matches!(try_receive((), false, &mut slot), Ok(_)));
    assert!(slot.is_none());
    assert!(matches!(try_receive((), false, &mut slot), Err(ResponseReceiveError::Retrieved)));

    let mut slot = Some(ResponseData::Ready(Bytes::new(), Some(ResponseError::Aborted)));
    match try_receive((), false, &mut slot) {
        Err(e) => assert_eq!(e.into_response().map(|x| x.errc()), Some(ResponseError::Aborted)),
        Ok(_) => panic!("expected an error response"),
    }

    let mut slot = Some(ResponseData::Closed);
    assert!(matches!(try_receive((), false, &mut slot), Err(ResponseReceiveError::Closed)));
    assert!(slot.is_none());
    assert!(ResponseReceiveError::<()>::Empty.as_response().is_none());
}

#[test]
fn response_payload_conversions() {
    let p: ResponsePayload<u8> = ResponsePayload::from(Ok::<u8, u8>(3));
    assert!(matches!(encode_payload(&p), EncodeResponsePayload::Okay(3)));
    let p: ResponsePayload<u8> = ResponsePayload::from(Err::<u8, u8>(4));
    assert!(matches!(encode_payload(&p), EncodeResponsePayload::ErrObjectOnly(4)));
    let p: ResponsePayload<u8> = ResponsePayload::from((ResponseError::Busy, 5));
    assert!(matches!(encode_payload(&p), EncodeResponsePayload::ErrCodeAndObject(ResponseError::Busy, 5)));
    let p: ResponsePayload<()> = ResponsePayload::from(ResponseError::Unhandled);
    assert!(matches!(encode_payload(&p), EncodeResponsePayload::ErrCodeOnly(ResponseError::Unhandled)));
}

#[test]
fn request_context_lifecycle() {
    let mut ctx: RequestContext<&str> = RequestContext::new();
    let id = RequestId::new(11);
    assert!(!ctx.is_pending(id));
    assert!(ctx.try_allocate_new_request(id, "w"));
    assert!(!ctx.try_allocate_new_request(id, "other"));
    assert!(ctx.is_pending(id));
    assert_eq!(ctx.free_request_id(id), "w");
    assert!(!ctx.is_pending(id));
    assert!(!ctx.is_expired());
    assert!(!ctx.mark_expired());
    assert!(ctx.mark_expired());
    assert!(ctx.is_expired());
    // an expired context takes no more requests
    assert!(!ctx.try_allocate_new_request(RequestId::new(12), "late"));
    assert!(!ctx.is_pending(RequestId::new(12)));
}

#[test]
fn polling_for_responses() {
    let mut slot = Some(ResponseData::Waiting);
    assert!(matches!(poll_receive((), false, &mut slot), ReceivePoll::Pending));
    assert!(matches!(poll_receive((), true, &mut slot), ReceivePoll::Ready(Err(None))));
    let mut slot = Some(ResponseData::Ready(Bytes::from_static(b"r"), None));
    assert!(matches!(poll_receive((), false, &mut slot), ReceivePoll::Ready(Ok(_))));
    assert!(matches!(poll_receive((), false, &mut slot), ReceivePoll::Ready(Err(None))));
    let mut slot = Some(ResponseData::Ready(Bytes::new(), Some(ResponseError::Busy)));
    match poll_receive((), false, &mut slot) {
        ReceivePoll::Ready(Err(Some(e))) => assert_eq!(e.errc(), ResponseError::Busy),
        _ => panic!("expected an error response"),
    }
}

#[test]
fn typed_response_results() {
    let ok = |r: &Response<()>| -> Result<usize, DeserializeError> { Ok(r.payload.len()) };
    let err = |e: &ErrorResponse<()>| -> Result<u8, DeserializeError> { Ok(e.errc.code()) };
    let bad = |_r: &Response<()>| -> Result<usize, DeserializeError> { Err(DeserializeError) };

    let r = cached_wait_result(Ok(Response { codec: (), payload: Bytes::from_static(b"abc") }), ok, err);
    assert!(matches!(r, Ok((_, 3))));
    let r = cached_wait_result(Ok(Response { codec: (), payload: Bytes::new() }), bad, err);
    assert!(matches!(r, Err(CachedWaitError::DeserializeFailed(DeserializeError, Ok(_)))));
    let e = ErrorResponse { errc: ResponseError::Aborted, codec: (), payload: Bytes::new() };
    let r = cached_wait_result(Err(ResponseReceiveError::Response(e)), ok, err);
    match r {
        Err(w) => {
            assert!(matches!(w.as_response(), Some((_, 5))));
            assert!(w.into_response().is_some());
        }
        Ok(_) => panic!("expected an error"),
    }
    let r = cached_wait_result::<(), usize, u8, _, _>(Err(ResponseReceiveError::Empty), ok, err);
    assert!(matches!(r, Err(CachedWaitError::Empty)));
    let r = cached_wait_result::<(), usize, u8, _, _>(Err(ResponseReceiveError::Closed), ok, err);
    assert!(matches!(r, Err(CachedWaitError::Closed)));
    let r = cached_wait_result::<(), usize, u8, _, _>(Err(ResponseReceiveError::Retrieved), ok, err);
    assert!(matches!(r, Err(CachedWaitError::Retrieved)));
}

#[test]
fn close_after_flush_closes_transport_at_channel_end() {
    let mut w = WriterState::new();
    assert_eq!(w.action(&WriterDirective::WriteMsg(Bytes::from_static(b"a"))), WriterAction::Write);
    assert_eq!(w.action(&WriterDirective::CloseAfterFlush), WriterAction::CloseChannel);
    assert_eq!(w.action(&WriterDirective::Flush), WriterAction::Flush);
    assert_eq!(w.action(&WriterDirective::WriteMsg(Bytes::from_static(b"b"))), WriterAction::Write);
    assert_eq!(w.on_channel_end(), (true, WriteRunnerExitType::ManualClose));

    let dropped = WriterState::new();
    assert_eq!(dropped.on_channel_end(), (false, WriteRunnerExitType::AllHandleDropped));
}
