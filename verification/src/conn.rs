//! The inbound side of a connection: messages received from the peer, the
//! directives that handlers hand back to the connection driver, and the
//! driver's decisions on each frame and event.

use vstd::prelude::*;
use crate::codec::DecodeError;
use crate::codec::EncodeError;
use crate::defs::RequestId;
use crate::req::RequestContext;

verus! {

/// Error responses that the library itself sends.
#[derive(Debug)]
pub enum PredefinedResponseError {
    /// The request was dropped without a response.
    Unhandled,
    /// The handler aborted the request.
    Aborted,
    /// A notification handler received a request.
    NotifyHandler,
    /// The parameters could not be parsed into the named type.
    ParseFailed(String),
    /// An internal error, by code.
    Internal(i32),
    /// An internal error, by code, with a detail text.
    InternalDetailed(i32, String),
}

/// The internal error for code `errc`, with its detail text when given.
pub open spec fn internal_error(errc: i32, detail: Option<String>) -> PredefinedResponseError {
    match detail {
        Some(d) => PredefinedResponseError::InternalDetailed(errc, d),
        None => PredefinedResponseError::Internal(errc),
    }
}

/// A request id as found in a frame: an integer, or the span of its text.
#[derive(Debug)]
pub enum ReqId {
    U64(u64),
    Bytes(core::ops::Range<usize>),
}

/// A received frame and the span of its payload.
pub struct InboundBody {
    pub buffer: bytes::Bytes,
    pub payload: core::ops::Range<usize>,
}

/// The body, method span and request id of a received request.
pub struct RequestInner {
    pub h: InboundBody,
    pub method: core::ops::Range<usize>,
    pub req_id: ReqId,
}

/// Writes handed to the driver's background writer.
pub enum DeferredWrite {
    /// Send a predefined error response to a request.
    ErrorResponse(RequestInner, PredefinedResponseError),
    /// Write an encoded frame.
    Raw(bytes::Bytes),
    Flush,
}

/// What a handle or message asks of the connection driver.
pub enum InboundDriverDirective {
    DeferredWrite(DeferredWrite),
    Close,
}

/// Sending failed.
#[derive(Debug)]
pub enum SendError {
    /// The connection driver is gone.
    Disconnected,
    EncodeFailed(EncodeError),
    IoError(std::io::Error),
}

/// The connection a received message came from.
pub trait Connection {
    /// Hands `d` to the connection driver; gives it back when the driver is
    /// gone.
    fn send_directive(&self, d: InboundDriverDirective) -> Result<(), InboundDriverDirective>;

    /// Whether the connection's driver is gone.
    fn is_disconnected(&self) -> bool;
}

/// A received request. Answer it once: with an encoded response, or with
/// one of the predefined errors.
pub struct Request<S> {
    inner: RequestInner,
    conn: S,
}

/// A received notification.
pub struct Notify<S> {
    pub h: InboundBody,
    pub method: core::ops::Range<usize>,
    pub sender: S,
}

/// A received message for the application's handlers.
pub enum RecvMsg<S> {
    Request(Request<S>),
    Notify(Notify<S>),
}

/// A received response.
pub struct ResponseMsg {
    pub h: InboundBody,
    pub req_id: ReqId,
    /// Whether the payload is an error object.
    pub is_error: bool,
}

/// Why a response could not be read as the wanted type.
#[derive(Debug)]
pub enum ResponseError<T> {
    /// The peer answered with an error object of the wanted error type.
    Typed(T),
    /// The peer answered with a predefined error.
    Predefined(PredefinedResponseError),
    DecodeError(DecodeError),
}

impl<T> From<DecodeError> for ResponseError<T> {
    fn from(e: DecodeError) -> (r: ResponseError<T>) {
        ResponseError::DecodeError(e)
    }
}

impl<T> vstd::std_specs::convert::FromSpecImpl<DecodeError> for ResponseError<T> {
    open spec fn obeys_from_spec() -> bool {
        true
    }

    open spec fn from_spec(e: DecodeError) -> ResponseError<T> {
        ResponseError::DecodeError(e)
    }
}

/// Reads a response as `Ok` or typed error: a success payload parses as the
/// result; an error payload is a predefined error when the codec recognises
/// one, and otherwise parses as the error type.
pub fn response_result<T, E>(
    is_error: bool,
    predefined: Option<PredefinedResponseError>,
    parse_ok: Result<T, DecodeError>,
    parse_err: Result<E, DecodeError>,
) -> (r: Result<T, ResponseError<E>>)
    ensures
        !is_error ==> r == match parse_ok {
            Ok(v) => Ok::<T, ResponseError<E>>(v),
            Err(e) => Err(ResponseError::DecodeError(e)),
        },
        is_error ==> r == match predefined {
            Some(p) => Err::<T, ResponseError<E>>(ResponseError::Predefined(p)),
            None => match parse_err {
                Ok(v) => Err::<T, ResponseError<E>>(ResponseError::Typed(v)),
                Err(e) => Err(ResponseError::DecodeError(e)),
            },
        },
{
    if !is_error {
        match parse_ok {
            Ok(v) => Ok(v),
            Err(e) => Err(ResponseError::DecodeError(e)),
        }
    } else if let Some(p) = predefined {
        Err(ResponseError::Predefined(p))
    } else {
        match parse_err {
            Ok(v) => Err(ResponseError::Typed(v)),
            Err(e) => Err(ResponseError::DecodeError(e)),
        }
    }
}

impl<S> Request<S> {
    pub closed spec fn spec_inner(self) -> RequestInner {
        self.inner
    }

    pub closed spec fn spec_conn(self) -> S {
        self.conn
    }

    pub fn new(inner: RequestInner, conn: S) -> (r: Request<S>)
        ensures
            r.spec_inner() == inner,
            r.spec_conn() == conn,
    {
        Request { inner, conn }
    }

    /// The request's body, method and id.
    pub fn inner(&self) -> (r: &RequestInner)
        ensures
            *r == self.spec_inner(),
    {
        &self.inner
    }

    /// The directive that answers this request with `err`, and the
    /// connection to hand it to.
    pub fn error_directive(self, err: PredefinedResponseError) -> (r: (InboundDriverDirective, S))
        ensures
            r == (InboundDriverDirective::DeferredWrite(
                DeferredWrite::ErrorResponse(self.spec_inner(), err),
            ), self.spec_conn()),
    {
        (InboundDriverDirective::DeferredWrite(DeferredWrite::ErrorResponse(self.inner, err)), self.conn)
    }
}

/// What sending `d` through `conn` gave: the send's outcome, with a refusal
/// (the connection driver is gone) read as `Disconnected`.
pub open spec fn sent_through<S: Connection>(conn: S, d: InboundDriverDirective, r: Result<(), SendError>) -> bool {
    exists|res: Result<(), InboundDriverDirective>|
        #[trigger] call_ensures(S::send_directive, (&conn, d), res) && r == match res {
            Ok(()) => Ok::<(), SendError>(()),
            Err(_) => Err(SendError::Disconnected),
        }
}

impl<S: Connection> Request<S> {
    /// Answers with `err` through the connection driver, without waiting.
    /// Fails with `Disconnected` when the driver is gone.
    fn error_predefined_deferred(self, err: PredefinedResponseError) -> (r: Result<(), SendError>)
        ensures
            sent_through(
                self.spec_conn(),
                InboundDriverDirective::DeferredWrite(
                    DeferredWrite::ErrorResponse(self.spec_inner(), err),
                ),
                r,
            ),
    {
        let (d, conn) = self.error_directive(err);
        match conn.send_directive(d) {
            Ok(()) => Ok(()),
            Err(_) => Err(SendError::Disconnected),
        }
    }

    /// Answers with an already encoded response frame, without waiting.
    pub fn response_deferred_raw(self, frame: bytes::Bytes) -> (r: Result<(), SendError>)
        ensures
            sent_through(
                self.spec_conn(),
                InboundDriverDirective::DeferredWrite(DeferredWrite::Raw(frame)),
                r,
            ),
    {
        let d = InboundDriverDirective::DeferredWrite(DeferredWrite::Raw(frame));
        match self.conn.send_directive(d) {
            Ok(()) => Ok(()),
            Err(_) => Err(SendError::Disconnected),
        }
    }

    /// Explicitly aborts the request.
    pub fn abort_deferred(self) -> (r: Result<(), SendError>)
        ensures
            sent_through(
                self.spec_conn(),
                InboundDriverDirective::DeferredWrite(
                    DeferredWrite::ErrorResponse(self.spec_inner(), PredefinedResponseError::Aborted),
                ),
                r,
            ),
    {
        self.error_predefined_deferred(PredefinedResponseError::Aborted)
    }

    /// Tells the peer that a notification handler received its request.
    pub fn error_notify_handler_deferred(self) -> (r: Result<(), SendError>)
        ensures
            sent_through(
                self.spec_conn(),
                InboundDriverDirective::DeferredWrite(
                    DeferredWrite::ErrorResponse(self.spec_inner(), PredefinedResponseError::NotifyHandler),
                ),
                r,
            ),
    {
        self.error_predefined_deferred(PredefinedResponseError::NotifyHandler)
    }

    /// Tells the peer that its parameters did not parse as the type named
    /// `target`.
    pub fn error_parse_failed_deferred(self, target: String) -> (r: Result<(), SendError>)
        ensures
            sent_through(
                self.spec_conn(),
                InboundDriverDirective::DeferredWrite(
                    DeferredWrite::ErrorResponse(self.spec_inner(), PredefinedResponseError::ParseFailed(target)),
                ),
                r,
            ),
    {
        let err = PredefinedResponseError::ParseFailed(target);
        self.error_predefined_deferred(err)
    }

    /// Answers with an internal error `errc`, with `detail` when given.
    pub fn error_internal_deferred(self, errc: i32, detail: Option<String>) -> (r: Result<
        (),
        SendError,
    >)
        ensures
            sent_through(
                self.spec_conn(),
                InboundDriverDirective::DeferredWrite(
                    DeferredWrite::ErrorResponse(self.spec_inner(), internal_error(errc, detail)),
                ),
                r,
            ),
    {
        let err = internal_error_of(errc, detail);
        self.error_predefined_deferred(err)
    }

    /// Drops the request unanswered: the peer is told it was unhandled (a
    /// connection driver that is gone is ignored).
    pub fn drop_unhandled(self)
        ensures
            exists|r: Result<(), SendError>|
                #[trigger] sent_through(
                    self.spec_conn(),
                    InboundDriverDirective::DeferredWrite(
                        DeferredWrite::ErrorResponse(self.spec_inner(), PredefinedResponseError::Unhandled),
                    ),
                    r,
                ),
    {
        let _ = self.error_predefined_deferred(PredefinedResponseError::Unhandled);
    }
}

/// The internal error for code `errc`, with its detail text when given.
pub fn internal_error_of(errc: i32, detail: Option<String>) -> (r: PredefinedResponseError)
    ensures
        r == internal_error(errc, detail),
{
    match detail {
        Some(d) => PredefinedResponseError::InternalDetailed(errc, d),
        None => PredefinedResponseError::Internal(errc),
    }
}

/* ------------------------------------- Frame dispatch ------------------------------------- */

/// Feature flags of a connection.
#[derive(Debug, Clone, Copy, PartialEq, Eq, Structural)]
pub struct Feature(pub u32);

/// Drop received notifications instead of delivering them.
pub const NO_RECEIVE_NOTIFY: u32 = 1;

/// Drop received requests instead of delivering them.
pub const NO_RECEIVE_REQUEST: u32 = 2;

impl Feature {
    /// Whether every flag of `other` is set.
    pub fn contains(&self, other: u32) -> (r: bool)
        ensures
            r == (self.0 & other == other),
    {
        self.0 & other == other
    }
}

/// The header of a decoded frame.
#[derive(Debug)]
pub enum InboundHeader {
    Request { method: core::ops::Range<usize>, req_id: ReqId },
    Notify { method: core::ops::Range<usize> },
    /// A response: its id, the integer the id stands for, and whether it
    /// carries an error.
    Response { req_id: ReqId, req_id_hash: u64, is_error: bool },
}

/// Why a received frame reached no handler.
pub enum InboundError<S> {
    InboundDecodeError(DecodeError, bytes::Bytes),
    /// The connection does not accept this kind of message.
    DisabledInbound(RecvMsg<S>),
    /// A response arrived on a connection that sends no requests.
    RedundantResponse(ResponseMsg),
    /// A response whose id stands for zero, which no request has.
    ResponseHashZero(ResponseMsg),
    /// A response to a request that is no longer pending.
    ExpiredResponse(ResponseMsg),
}

/// What became of a received frame.
pub enum Dispatch<S> {
    /// Delivered to the application.
    Deliver(RecvMsg<S>),
    /// Stored in the slot of the pending request it answers.
    Routed,
    /// Reported to the event subscriber.
    Report(InboundError<S>),
}

/// Dispatches a received frame, given the outcome of decoding it: requests
/// and notifications go to the application unless the connection disables
/// them; a response goes to the slot of its pending request.
pub fn on_read<S>(
    frame: bytes::Bytes,
    parsed: Result<(InboundHeader, core::ops::Range<usize>), DecodeError>,
    conn: S,
    features: Feature,
    reqs: &mut Option<RequestContext<ResponseMsg>>,
) -> (r: Dispatch<S>)
    ensures
        match parsed {
            Err(e) => r == Dispatch::<S>::Report(InboundError::InboundDecodeError(e, frame)),
            Ok((InboundHeader::Notify { method }, payload)) => {
                let msg = RecvMsg::Notify(
                    Notify { h: InboundBody { buffer: frame, payload }, method, sender: conn },
                );
                if features.0 & NO_RECEIVE_NOTIFY == NO_RECEIVE_NOTIFY {
                    r == Dispatch::<S>::Report(InboundError::DisabledInbound(msg))
                } else {
                    r == Dispatch::<S>::Deliver(msg)
                }
            },
            Ok((InboundHeader::Request { method, req_id }, payload)) => {
                let inner = RequestInner { h: InboundBody { buffer: frame, payload }, method, req_id };
                (r matches Dispatch::Deliver(RecvMsg::Request(q)) && !(features.0
                    & NO_RECEIVE_REQUEST == NO_RECEIVE_REQUEST) && q.spec_inner() == inner
                    && q.spec_conn() == conn) || (r matches Dispatch::Report(
                    InboundError::DisabledInbound(RecvMsg::Request(q)),
                ) && features.0 & NO_RECEIVE_REQUEST == NO_RECEIVE_REQUEST && q.spec_inner()
                    == inner && q.spec_conn() == conn)
            },
            Ok((InboundHeader::Response { req_id, req_id_hash, is_error }, payload)) => {
                let msg = ResponseMsg { h: InboundBody { buffer: frame, payload }, req_id, is_error };
                match *old(reqs) {
                    None => r == Dispatch::<S>::Report(InboundError::RedundantResponse(msg))
                        && *final(reqs) == *old(reqs),
                    Some(ctx) => *final(reqs) matches Some(c) && if req_id_hash == 0 {
                        r == Dispatch::<S>::Report(InboundError::ResponseHashZero(msg)) && c@
                            == ctx@
                    } else if ctx@.1.contains_key(req_id_hash) {
                        r is Routed && c@ == (ctx@.0, ctx@.1.insert(req_id_hash, Some(msg)))
                    } else {
                        r == Dispatch::<S>::Report(InboundError::ExpiredResponse(msg)) && c@
                            == ctx@
                    },
                }
            },
        },
{
    let (header, payload) = match parsed {
        Ok(x) => x,
        Err(e) => return Dispatch::Report(InboundError::InboundDecodeError(e, frame)),
    };
    let h = InboundBody { buffer: frame, payload };
    match header {
        InboundHeader::Notify { method } => {
            let msg = RecvMsg::Notify(Notify { h, method, sender: conn });
            if features.contains(NO_RECEIVE_NOTIFY) {
                Dispatch::Report(InboundError::DisabledInbound(msg))
            } else {
                Dispatch::Deliver(msg)
            }
        },
        InboundHeader::Request { method, req_id } => {
            let msg = RecvMsg::Request(Request::new(RequestInner { h, method, req_id }, conn));
            if features.contains(NO_RECEIVE_REQUEST) {
                Dispatch::Report(InboundError::DisabledInbound(msg))
            } else {
                Dispatch::Deliver(msg)
            }
        },
        InboundHeader::Response { req_id, req_id_hash, is_error } => {
            let response = ResponseMsg { h, is_error, req_id };
            let ctx = match reqs {
                Some(ctx) => ctx,
                None => return Dispatch::Report(InboundError::RedundantResponse(response)),
            };
            let id = match RequestId::from_value(req_id_hash) {
                Some(id) => id,
                None => return Dispatch::Report(InboundError::ResponseHashZero(response)),
            };
            match ctx.route_response(id, response) {
                Ok(()) => Dispatch::Routed,
                Err(msg) => Dispatch::Report(InboundError::ExpiredResponse(msg)),
            }
        },
    }
}

/* ------------------------------------- Driver loop ------------------------------------- */

/// What the driver loop of a connection waits on.
pub enum DriverEvent {
    /// A directive from a handle, or `None` when every handle is gone.
    Directive(Option<InboundDriverDirective>),
    /// A frame read from the transport, or the read error.
    Read(Result<bytes::Bytes, std::io::Error>),
    /// The background writer stopped, with its error if it failed.
    BackgroundEnded(Result<(), std::io::Error>),
}

/// What the driver does with an event.
pub enum DriverStep {
    /// Hand the write to the background writer.
    Forward(DeferredWrite),
    /// Dispatch the frame (see [`on_read`]).
    Dispatch(bytes::Bytes),
    /// Leave the loop, telling the event subscriber of the close first when
    /// given: whether the close was on the writing side, and its error.
    Exit(Option<(bool, std::io::Error)>),
}

/// State of a connection's driver loop: whether the remote side, or the
/// transport, closed the connection.
pub struct DriverState {
    pub close_from_remote: bool,
}

/// The closing notice that a step reports, if any.
pub open spec fn step_notice(s: DriverStep) -> bool {
    s matches DriverStep::Exit(Some(_))
}

/// The driver's decision on one event, and whether the connection is then
/// closed from the remote side.
pub open spec fn driver_step(ev: DriverEvent) -> (DriverStep, bool) {
    match ev {
        DriverEvent::Directive(Some(InboundDriverDirective::DeferredWrite(w))) => (
            DriverStep::Forward(w),
            false,
        ),
        DriverEvent::Directive(_) => (DriverStep::Exit(None), false),
        DriverEvent::Read(Ok(b)) => (DriverStep::Dispatch(b), false),
        DriverEvent::Read(Err(e)) => (DriverStep::Exit(Some((false, e))), true),
        DriverEvent::BackgroundEnded(Ok(())) => (DriverStep::Exit(None), false),
        DriverEvent::BackgroundEnded(Err(e)) => (DriverStep::Exit(Some((true, e))), true),
    }
}

impl DriverState {
    pub fn new() -> (r: DriverState)
        ensures
            !r.close_from_remote,
    {
        DriverState { close_from_remote: false }
    }

    /// The driver's decision on one event. A closed directive channel, a
    /// close directive or a clean stop of the background writer leave the
    /// loop quietly; a read error or a writer error leave it as closed from
    /// the remote side, with a notice.
    pub fn on_event(&mut self, ev: DriverEvent) -> (r: DriverStep)
        requires
            !old(self).close_from_remote,
        ensures
            (r, final(self).close_from_remote) == driver_step(ev),
    {
        match ev {
            DriverEvent::Directive(Some(InboundDriverDirective::DeferredWrite(w))) => {
                DriverStep::Forward(w)
            },
            DriverEvent::Directive(_) => DriverStep::Exit(None),
            DriverEvent::Read(Ok(b)) => DriverStep::Dispatch(b),
            DriverEvent::Read(Err(e)) => {
                self.close_from_remote = true;
                DriverStep::Exit(Some((false, e)))
            },
            DriverEvent::BackgroundEnded(Ok(())) => DriverStep::Exit(None),
            DriverEvent::BackgroundEnded(Err(e)) => {
                self.close_from_remote = true;
                DriverStep::Exit(Some((true, e)))
            },
        }
    }

    /// After the loop: whether the driver itself tells the subscriber of a
    /// clean close (done when no close notice was given yet).
    pub fn notify_clean_close(&self) -> (r: bool)
        ensures
            r == !self.close_from_remote,
    {
        !self.close_from_remote
    }
}

/// The background writer's verdict on sending an error response: only an
/// I/O failure stops the writer; other failures are ignored.
pub fn error_response_outcome(r: Result<(), SendError>) -> (o: Result<(), std::io::Error>)
    ensures
        match r {
            Err(SendError::IoError(e)) => o == Err::<(), std::io::Error>(e),
            _ => o is Ok,
        },
{
    match r {
        Err(SendError::IoError(e)) => Err(e),
        _ => Ok(()),
    }
}

/// Whichever event ends the loop, the event subscriber hears of the close
/// exactly once: from the exiting step, or from the driver afterwards.
pub proof fn lemma_close_notified_once(ev: DriverEvent)
    requires
        driver_step(ev).0 is Exit,
    ensures
        step_notice(driver_step(ev).0) != !driver_step(ev).1,
{
}

} // verus!
