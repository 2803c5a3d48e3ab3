use std::cell::RefCell;

use bytes::Bytes;
use rpc_it::codec::EncodeError;
use rpc_it::defs::RequestId;
use rpc_it::rpc::{PacketWriteBurst, PreparedPacket, RequestContext, ResponseData, TrySendFailure, TrySendMsgError, WriterDirective};
use rpc_it::sender::{shutdown_directive, DirectiveChannel, NotifySender};

struct Chan {
    capacity: usize,
    closed: RefCell<bool>,
    queued: RefCell<Vec<String>>,
}

fn name(d: &WriterDirective) -> String {
    match d {
        WriterDirective::CloseImmediately => "close-now".into(),
        WriterDirective::CloseAfterFlush => "close-after-flush".into(),
        WriterDirective::Flush => "flush".into(),
        WriterDirective::WriteMsg(b) => format!("msg {}", b.len()),
        WriterDirective::WriteMsgBurst(v) => format!("burst {}", v.len()),
        WriterDirective::WriteReqMsg(b, _) => format!("req {}", b.len()),
    }
}

impl DirectiveChannel for Chan {
    fn try_send(&self, d: WriterDirective) -> Result<(), TrySendFailure<WriterDirective>> {
        if *self.closed.borrow() {
            return Err(TrySendFailure::Closed(d));
        }
        if self.queued.borrow().len() >= self.capacity {
            return Err(TrySendFailure::Full(d));
        }
        self.queued.borrow_mut().push(name(&d));
        Ok(())
    }

    fn close(&self) {
        *self.closed.borrow_mut() = true;
    }
}

fn chan(capacity: usize) -> Chan {
    Chan { capacity, closed: RefCell::new(false), queued: RefCell::new(vec![]) }
}

#[test]
fn shutdown_directives() {
    assert!(matches!(shutdown_directive(true), WriterDirective::CloseImmediately));
    assert!(matches!(shutdown_directive(false), WriterDirective::CloseAfterFlush));
}

#[test]
fn queueing_and_shutdown() {
    let s = NotifySender::new(chan(3), false, 7);
    assert_eq!(s.try_notify_encoded(Bytes::from_static(b"ab")), Ok(()));
    assert_eq!(s.try_flush_writer(), Ok(()));
    assert_eq!(s.try_shutdown_writer(false), Ok(()));
    assert_eq!(s.try_flush_writer(), Err(TrySendMsgError::ChannelClosed));

    let full = NotifySender::new(chan(0), false, 7);
    assert_eq!(full.try_flush_writer(), Err(TrySendMsgError::ChannelAtCapacity));
    assert_eq!(full.try_shutdown_writer(true), Err(TrySendMsgError::ChannelAtCapacity));
}

#[test]
fn request_sender_upgrade() {
    assert!(NotifySender::new(chan(1), true, 1).try_into_request_sender().is_ok());
    assert!(NotifySender::new(chan(1), false, 1).try_into_request_sender().is_err());
}

#[test]
fn bursts_are_checked_against_the_codec() {
    let s = NotifySender::new(chan(5), false, 7);
    let p = |h| PreparedPacket::<()>::new_unchecked(Bytes::from_static(b"x"), h);
    assert_eq!(s.try_burst(PacketWriteBurst::<()>::Empty), Ok(0));
    assert_eq!(s.try_burst(PacketWriteBurst::Mono(p(7))), Ok(1));
    assert_eq!(s.try_burst(PacketWriteBurst::Mono(p(8))), Err(TrySendMsgError::EncodeFailed(EncodeError::NotReusable)));
    assert_eq!(s.try_burst(PacketWriteBurst::from_packets(vec![p(7), p(7), p(7)])), Ok(3));
    assert_eq!(
        s.try_burst(PacketWriteBurst::from_packets(vec![p(7), p(9)])),
        Err(TrySendMsgError::EncodeFailed(EncodeError::NotReusable))
    );
}

impl DirectiveChannel for &Chan {
    fn try_send(&self, d: WriterDirective) -> Result<(), TrySendFailure<WriterDirective>> {
        (**self).try_send(d)
    }

    fn close(&self) {
        (**self).close()
    }
}

#[test]
fn requests_register_until_queued() {
    let ch = chan(1);
    let sender = NotifySender::new(&ch, true, 1).try_into_request_sender().ok().unwrap();
    let mut reqs: RequestContext<ResponseData> = RequestContext::new();
    let id = RequestId::new(5);
    let enc_ok = |i: RequestId| -> Result<Bytes, EncodeError> { Ok(Bytes::from(vec![i.value() as u8])) };
    assert_eq!(sender.try_request(&mut reqs, id, enc_ok), Ok(id));
    assert!(reqs.is_pending(id));
    assert_eq!(*ch.queued.borrow(), vec!["req 1".to_string()]);

    // the same id again is refused
    assert_eq!(sender.try_request(&mut reqs, id, enc_ok), Err(TrySendMsgError::ReceiverExpired));

    // a failed encoding leaves no pending request
    let id2 = RequestId::new(7);
    let enc_err = |_i: RequestId| -> Result<Bytes, EncodeError> { Err(EncodeError::UnsupportedAction) };
    assert_eq!(sender.try_request(&mut reqs, id2, enc_err), Err(TrySendMsgError::EncodeFailed(EncodeError::UnsupportedAction)));
    assert!(!reqs.is_pending(id2));

    // a full channel leaves no pending request either
    assert_eq!(sender.try_request(&mut reqs, id2, enc_ok), Err(TrySendMsgError::ChannelAtCapacity));
    assert!(!reqs.is_pending(id2));

    // an expired context refuses requests
    reqs.mark_expired();
    assert_eq!(sender.try_request(&mut reqs, RequestId::new(9), enc_ok), Err(TrySendMsgError::ReceiverExpired));
}
