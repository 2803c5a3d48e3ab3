//! Handles that queue frames and control directives to the background
//! writer of a connection.

use vstd::prelude::*;
use crate::codec::EncodeError;
use crate::defs::RequestId;
use crate::rpc::{
    burst_into_directive, PacketWriteBurst, RequestContext, ResponseData, TrySendFailure, TrySendMsgError,
    WriterDirective,
};

verus! {

/// The channel of directives to a connection's background writer.
pub trait DirectiveChannel {
    /// Queues `d` without waiting; hands it back when the channel is closed
    /// or full.
    fn try_send(&self, d: WriterDirective) -> Result<(), TrySendFailure<WriterDirective>>;

    /// Closes the channel: nothing more can be queued.
    fn close(&self);
}

/// The directive that shuts the writer down: at once, discarding what is
/// queued, or after writing it.
pub open spec fn spec_shutdown_directive(discard_unsent: bool) -> WriterDirective {
    if discard_unsent {
        WriterDirective::CloseImmediately
    } else {
        WriterDirective::CloseAfterFlush
    }
}

pub fn shutdown_directive(discard_unsent: bool) -> (r: WriterDirective)
    ensures
        r == spec_shutdown_directive(discard_unsent),
{
    if discard_unsent {
        WriterDirective::CloseImmediately
    } else {
        WriterDirective::CloseAfterFlush
    }
}

/// What queueing `d` on `tx` gave: the channel's outcome, with a closed
/// channel read as `ChannelClosed` and a full one as `ChannelAtCapacity`.
pub open spec fn queued_through<Ch: DirectiveChannel>(
    tx: Ch,
    d: WriterDirective,
    r: Result<(), TrySendMsgError>,
) -> bool {
    exists|res: Result<(), TrySendFailure<WriterDirective>>|
        #[trigger] call_ensures(Ch::try_send, (&tx, d), res) && r == match res {
            Ok(()) => Ok::<(), TrySendMsgError>(()),
            Err(TrySendFailure::Closed(_)) => Err(TrySendMsgError::ChannelClosed),
            Err(TrySendFailure::Full(_)) => Err(TrySendMsgError::ChannelAtCapacity),
        }
}

/// What queueing `d` on `tx` gave, for an operation that reports `n` on
/// success: `Ok(n)` when the directive was queued, else the error of
/// [`queued_through`].
pub open spec fn queued_count<Ch: DirectiveChannel>(
    tx: Ch,
    d: WriterDirective,
    n: usize,
    r: Result<usize, TrySendMsgError>,
) -> bool {
    exists|q: Result<(), TrySendMsgError>|
        #[trigger] queued_through(tx, d, q) && r == match q {
            Ok(()) => Ok::<usize, TrySendMsgError>(n),
            Err(e) => Err(e),
        }
}

/// Sends notifications and control directives to a connection's writer.
pub struct NotifySender<Ch> {
    tx: Ch,
    /// The connection was built to send requests too.
    has_requests: bool,
    /// Identity of the connection's codec, for prepared packets.
    codec_hash: usize,
}

/// A [`NotifySender`] of a connection that sends requests.
pub struct RequestSender<Ch> {
    pub inner: NotifySender<Ch>,
}

impl<Ch> NotifySender<Ch> {
    pub closed spec fn spec_has_requests(self) -> bool {
        self.has_requests
    }

    pub closed spec fn spec_codec_hash(self) -> usize {
        self.codec_hash
    }

    pub closed spec fn spec_tx(self) -> Ch {
        self.tx
    }

    pub fn new(tx: Ch, has_requests: bool, codec_hash: usize) -> (r: NotifySender<Ch>)
        ensures
            r.spec_tx() == tx,
            r.spec_has_requests() == has_requests,
            r.spec_codec_hash() == codec_hash,
    {
        NotifySender { tx, has_requests, codec_hash }
    }

    /// Upgrades to a request handle; fails (handing the handle back) when
    /// the connection was not built to send requests.
    pub fn try_into_request_sender(self) -> (r: Result<RequestSender<Ch>, NotifySender<Ch>>)
        ensures
            self.spec_has_requests() ==> (r matches Ok(s) && s.inner == self),
            !self.spec_has_requests() ==> r == Err::<RequestSender<Ch>, NotifySender<Ch>>(self),
    {
        if self.has_requests {
            Ok(RequestSender { inner: self })
        } else {
            Err(self)
        }
    }
}

impl<Ch: DirectiveChannel> NotifySender<Ch> {
    fn try_send_frame(&self, d: WriterDirective) -> (r: Result<(), TrySendMsgError>)
        ensures
            queued_through(self.spec_tx(), d, r),
    {
        match self.tx.try_send(d) {
            Ok(()) => Ok(()),
            Err(TrySendFailure::Closed(_)) => Err(TrySendMsgError::ChannelClosed),
            Err(TrySendFailure::Full(_)) => Err(TrySendMsgError::ChannelAtCapacity),
        }
    }

    /// Queues an encoded notification frame without waiting.
    pub fn try_notify_encoded(&self, frame: bytes::Bytes) -> (r: Result<(), TrySendMsgError>)
        ensures
            queued_through(self.spec_tx(), WriterDirective::WriteMsg(frame), r),
    {
        self.try_send_frame(WriterDirective::WriteMsg(frame))
    }

    /// Queues the shutdown of the writer (see [`shutdown_directive`]), then
    /// closes the channel so that nothing more is queued. Fails, without
    /// closing, when the directive cannot be queued.
    pub fn try_shutdown_writer(&self, drop_after_this: bool) -> (r: Result<(), TrySendMsgError>)
        ensures
            queued_through(self.spec_tx(), spec_shutdown_directive(drop_after_this), r),
            r is Ok ==> call_ensures(Ch::close, (&self.spec_tx(),), ()),
    {
        self.try_send_frame(shutdown_directive(drop_after_this))?;
        self.tx.close();
        Ok(())
    }

    /// Queues a flush of the writer.
    pub fn try_flush_writer(&self) -> (r: Result<(), TrySendMsgError>)
        ensures
            queued_through(self.spec_tx(), WriterDirective::Flush, r),
    {
        self.try_send_frame(WriterDirective::Flush)
    }

    /// Queues prepared packets at once; gives the number of frames queued.
    /// Packets of another codec are refused before anything is queued, and
    /// an empty burst queues nothing.
    pub fn try_burst<C>(&self, burst: PacketWriteBurst<C>) -> (r: Result<usize, TrySendMsgError>)
        ensures
            burst is Empty ==> r == Ok::<usize, TrySendMsgError>(0),
            burst is ErrHashMismatch ==> r == Err::<usize, TrySendMsgError>(
                TrySendMsgError::EncodeFailed(EncodeError::NotReusable),
            ),
            burst matches PacketWriteBurst::Mono(p) ==> (p.spec_hash() != self.spec_codec_hash()
                ==> r == Err::<usize, TrySendMsgError>(
                TrySendMsgError::EncodeFailed(EncodeError::NotReusable),
            )) && (p.spec_hash() == self.spec_codec_hash() ==> queued_count(
                self.spec_tx(),
                WriterDirective::WriteMsg(p.spec_data()),
                1,
                r,
            )),
            burst matches PacketWriteBurst::Burst(h, chunks) ==> (h != self.spec_codec_hash() ==> r
                == Err::<usize, TrySendMsgError>(
                TrySendMsgError::EncodeFailed(EncodeError::NotReusable),
            )) && (h == self.spec_codec_hash() ==> queued_count(
                self.spec_tx(),
                WriterDirective::WriteMsgBurst(chunks),
                chunks.len(),
                r,
            )),
    {
        let directive = match burst_into_directive(burst, self.codec_hash) {
            Ok(Some(x)) => x,
            Ok(None) => return Ok(0),
            Err(e) => return Err(TrySendMsgError::EncodeFailed(e)),
        };
        let (count, msg) = directive;
        self.try_send_frame(msg)?;
        Ok(count)
    }
}

impl<Ch: DirectiveChannel> RequestSender<Ch> {
    /// Sends a request without waiting: registers request `id` (refused as
    /// `ReceiverExpired` when the context expired or `id` is pending), has
    /// `encode` write the request frame, and queues the frame to the writer.
    /// When encoding or queueing fails the request is unregistered again.
    /// Gives the id the response will come under.
    pub fn try_request<F: FnOnce(RequestId) -> Result<bytes::Bytes, EncodeError>>(
        &self,
        reqs: &mut RequestContext<ResponseData>,
        id: RequestId,
        encode: F,
    ) -> (r: Result<RequestId, TrySendMsgError>)
        requires
            call_requires(encode, (id,)),
        ensures
            old(reqs)@.1 || old(reqs)@.0.contains_key(id@) ==> r == Err::<RequestId, TrySendMsgError>(
                TrySendMsgError::ReceiverExpired,
            ) && final(reqs)@ == old(reqs)@,
            !(old(reqs)@.1 || old(reqs)@.0.contains_key(id@)) ==> exists|
                res: Result<bytes::Bytes, EncodeError>,
            | #[trigger] call_ensures(encode, (id,), res) && match res {
                Err(e) => r == Err::<RequestId, TrySendMsgError>(TrySendMsgError::EncodeFailed(e))
                    && final(reqs)@ == old(reqs)@,
                Ok(f) => exists|q: Result<(), TrySendMsgError>|
                    #[trigger] queued_through(self.inner.spec_tx(), WriterDirective::WriteReqMsg(f, id), q)
                        && match q {
                        Ok(()) => r == Ok::<RequestId, TrySendMsgError>(id) && final(reqs)@ == (
                            old(reqs)@.0.insert(id@, ResponseData::Waiting),
                            old(reqs)@.1,
                        ),
                        Err(e) => r == Err::<RequestId, TrySendMsgError>(e) && final(reqs)@ == old(reqs)@,
                    },
            },
    {
        if !reqs.try_allocate_new_request(id, ResponseData::Waiting) {
            return Err(TrySendMsgError::ReceiverExpired);
        }
        let encoded = encode(id);
        let frame = match encoded {
            Ok(f) => f,
            Err(e) => {
                let _ = reqs.free_request_id(id);
                proof {
                    assert(reqs@.0 =~= old(reqs)@.0);
                }
                return Err(TrySendMsgError::EncodeFailed(e));
            },
        };
        match self.inner.try_send_frame(WriterDirective::WriteReqMsg(frame, id)) {
            Ok(()) => Ok(id),
            Err(e) => {
                let _ = reqs.free_request_id(id);
                proof {
                    assert(reqs@.0 =~= old(reqs)@.0);
                }
                Err(e)
            },
        }
    }
}

} // verus!
