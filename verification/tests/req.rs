use rpc_it::defs::RequestId;
use rpc_it::req::{RecvError, RequestContext, ResponseFuture, ResponsePoll};

#[test]
fn request_id_bases_are_odd() {
    let mut ctx: RequestContext<u8> = RequestContext::new();
    assert_eq!(ctx.next_req_id_base().value(), 1);
    assert_eq!(ctx.next_req_id_base().value(), 3);
    assert_eq!(ctx.next_req_id_base().value(), 5);
}

#[test]
fn register_route_and_receive() {
    let conn = ();
    let mut ctx: RequestContext<&str> = RequestContext::new();
    let id = ctx.next_req_id_base();
    let slot = ctx.register_req(id);
    assert!(ctx.is_pending(id));
    let mut fut = ResponseFuture::new(&conn, slot);
    assert!(!fut.is_terminated());
    assert_eq!(fut.try_recv(false, &mut ctx), Ok(None));
    assert_eq!(fut.try_recv(true, &mut ctx), Err(RecvError::Disconnected));

    assert_eq!(ctx.route_response(RequestId::new(99), "lost"), Err("lost"));
    assert_eq!(ctx.route_response(id, "pong"), Ok(()));
    assert_eq!(fut.try_recv(false, &mut ctx), Ok(Some("pong")));
    assert!(fut.is_terminated());
    assert!(!ctx.is_pending(id));
    assert_eq!(fut.try_recv(false, &mut ctx), Ok(None));
}

#[test]
fn polling_and_release() {
    let conn = String::from("conn");
    let mut ctx: RequestContext<u32> = RequestContext::new();
    let id = ctx.next_req_id_base();
    let slot = ctx.register_req(id);
    let fut = ResponseFuture::new(&conn, slot);
    let mut owned = fut.to_owned();
    assert!(matches!(owned.0.poll_response(false, &mut ctx), ResponsePoll::Pending));
    assert!(matches!(owned.0.poll_response(true, &mut ctx), ResponsePoll::Ready(Err(RecvError::Disconnected))));
    owned.0.release(&mut ctx);
    assert!(!ctx.is_pending(id));

    let id2 = ctx.next_req_id_base();
    let slot2 = ctx.register_req(id2);
    let mut fut2 = ResponseFuture::new(&conn, slot2);
    assert_eq!(ctx.route_response(id2, 77), Ok(()));
    assert!(matches!(fut2.poll_response(false, &mut ctx), ResponsePoll::Ready(Ok(77))));
    fut2.release(&mut ctx);
}

#[test]
fn take_ready_and_unregister() {
    let mut ctx: RequestContext<u8> = RequestContext::new();
    let id = RequestId::new(4);
    ctx.register_req(id);
    assert_eq!(ctx.take_ready(id), None);
    assert!(ctx.is_pending(id));
    ctx.route_response(id, 1).unwrap();
    assert_eq!(ctx.take_ready(id), Some(1));
    assert!(!ctx.is_pending(id));
    ctx.register_req(id);
    ctx.unregister(id);
    assert!(!ctx.is_pending(id));
}

#[test]
fn waiting_future_is_unchanged_until_its_response() {
    let conn = String::from("conn");
    let mut ctx: RequestContext<u8> = RequestContext::new();
    let id = ctx.next_req_id_base();
    let slot = ctx.register_req(id);
    let mut fut = ResponseFuture::new(&conn, slot);
    assert_eq!(fut.try_recv(true, &mut ctx), Err(RecvError::Disconnected));
    assert!(!fut.is_terminated());
    assert!(ctx.is_pending(id));
    assert_eq!(fut.try_recv(false, &mut ctx), Ok(None));
    assert!(!fut.is_terminated());
    // still waiting on the same request through the same handle
    let mut owned = fut.to_owned();
    assert_eq!(ctx.route_response(id, 4), Ok(()));
    assert_eq!(owned.0.try_recv(false, &mut ctx), Ok(Some(4)));
    assert!(owned.0.is_terminated());
    assert!(!ctx.is_pending(id));
}
