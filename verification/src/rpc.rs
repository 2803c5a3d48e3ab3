//! Connection-level decisions: error kinds, the background writer's state
//! machine, prepared packets and bursts, response delivery and the table
//! of pending requests.
//!
//! The asynchronous runtime (channels, tasks, transports) lives outside this
//! library and follows the decisions made here.

use vstd::prelude::*;

use crate::buf::{bytes_clone, bytes_view};
use crate::codec::{DeserializeError, EncodeError, EncodeResponsePayload, ResponseError};
use crate::defs::RequestId;

verus! {

#[verifier::external_type_specification]
#[verifier::external_body]
pub struct ExIoError(std::io::Error);

/* ------------------------------------------- Configuration ------------------------------------------- */

/// A trait constraint for the user data type of an RPC connection.
pub trait UserData: Send + Sync + 'static {}

impl<T: Send + Sync + 'static> UserData for T {}

/// A trait constraint for the user data type of an RPC connection.
pub trait RpcUserData: Send + Sync + 'static {}

impl<T: Send + Sync + 'static> RpcUserData for T {}

/// The codec and user data types of a connection.
pub trait Config: 'static {
    type Codec;
    type UserData: UserData;
}

/// A [`Config`] given by its two types.
pub struct DefaultConfig<U, C>(pub core::marker::PhantomData<(U, C)>);

impl<U: UserData, C: 'static> Config for DefaultConfig<U, C> {
    type Codec = C;
    type UserData = U;
}

/* ---------------------------------------------- Errors ---------------------------------------------- */

/// Error that occurs when sending a request or notification.
#[derive(Debug, Clone, Copy, PartialEq, Eq, Structural)]
#[non_exhaustive]
pub enum SendMsgError {
    EncodeFailed(EncodeError),
    /// The command channel to the background runner was already closed.
    ChannelClosed,
    /// A request was sent, but the receiver has already expired.
    ReceiverExpired,
}

#[derive(Debug, Clone, Copy, PartialEq, Eq, Structural)]
#[non_exhaustive]
pub enum SendResponseError {
    MsgError(SendMsgError),
    /// The inbound is not a request, or it was already responded.
    InboundNotRequest,
}

/// Error that occurs when trying to send a request or notification without
/// waiting.
#[derive(Debug, Clone, Copy, PartialEq, Eq, Structural)]
#[non_exhaustive]
pub enum TrySendMsgError {
    EncodeFailed(EncodeError),
    ChannelClosed,
    /// The channel is at capacity.
    ChannelAtCapacity,
    ReceiverExpired,
}

#[derive(Debug, Clone, Copy, PartialEq, Eq, Structural)]
pub enum TrySendResponseError {
    MsgError(TrySendMsgError),
    InboundNotRequest,
}

/// Error when trying to receive an inbound message.
#[derive(Debug, Clone, Copy, PartialEq, Eq, Structural)]
pub enum TryRecvError {
    /// The receive channel was closed; no more messages.
    Closed,
    /// No message available.
    Empty,
}

/// Why the write runner stopped.
#[derive(Debug, Clone, Copy, PartialEq, Eq, Structural)]
pub enum WriteRunnerExitType {
    AllHandleDropped,
    /// The writer was closed manually, discarding what was queued.
    ManualCloseImmediate,
    /// The writer was closed manually after writing what was queued.
    ManualClose,
}

/// What failed during the write runner's execution.
#[derive(Debug)]
pub enum WriteRunnerError {
    WriterCloseFailed(std::io::Error),
    WriterFlushFailed(std::io::Error),
    WriteFailed(std::io::Error),
}

/// Why the read runner stopped.
#[derive(Debug, Clone, Copy, PartialEq, Eq, Structural)]
pub enum ReadRunnerExitType {
    AllHandleDropped,
    Eof,
}

/// Error from a deferred action on the background runner.
#[derive(Debug)]
pub enum DeferredActionError<T> {
    BackgroundRunnerClosed,
    /// The channel is at capacity; holds what was not sent.
    ChannelAtCapacity(T),
}

/// Error while waiting for a response.
#[derive(Debug, Clone, Copy, PartialEq, Eq, Structural)]
pub enum ReceiveResponseError {
    /// The RPC server was closed.
    ServerClosed,
    /// The RPC client was closed.
    ClientClosed,
}

impl From<EncodeError> for SendMsgError {
    fn from(e: EncodeError) -> (r: SendMsgError) {
        SendMsgError::EncodeFailed(e)
    }
}

impl vstd::std_specs::convert::FromSpecImpl<EncodeError> for SendMsgError {
    open spec fn obeys_from_spec() -> bool {
        true
    }

    open spec fn from_spec(e: EncodeError) -> SendMsgError {
        SendMsgError::EncodeFailed(e)
    }
}

impl From<EncodeError> for TrySendMsgError {
    fn from(e: EncodeError) -> (r: TrySendMsgError) {
        TrySendMsgError::EncodeFailed(e)
    }
}

impl vstd::std_specs::convert::FromSpecImpl<EncodeError> for TrySendMsgError {
    open spec fn obeys_from_spec() -> bool {
        true
    }

    open spec fn from_spec(e: EncodeError) -> TrySendMsgError {
        TrySendMsgError::EncodeFailed(e)
    }
}

impl From<SendMsgError> for SendResponseError {
    fn from(e: SendMsgError) -> (r: SendResponseError) {
        SendResponseError::MsgError(e)
    }
}

impl vstd::std_specs::convert::FromSpecImpl<SendMsgError> for SendResponseError {
    open spec fn obeys_from_spec() -> bool {
        true
    }

    open spec fn from_spec(e: SendMsgError) -> SendResponseError {
        SendResponseError::MsgError(e)
    }
}

impl From<TrySendMsgError> for TrySendResponseError {
    fn from(e: TrySendMsgError) -> (r: TrySendResponseError) {
        TrySendResponseError::MsgError(e)
    }
}

impl vstd::std_specs::convert::FromSpecImpl<TrySendMsgError> for TrySendResponseError {
    open spec fn obeys_from_spec() -> bool {
        true
    }

    open spec fn from_spec(e: TrySendMsgError) -> TrySendResponseError {
        TrySendResponseError::MsgError(e)
    }
}

/* ------------------------------------------ Writer directives ------------------------------------------ */

/// A message to the background writer task.
pub enum WriterDirective {
    /// Close the writer transport immediately.
    CloseImmediately,
    /// Close the writer transport after writing everything queued before.
    CloseAfterFlush,
    /// Flush the writer transport.
    Flush,
    /// Write a notification or response frame.
    WriteMsg(bytes::Bytes),
    /// Write a burst of notification frames.
    WriteMsgBurst(Vec<bytes::Bytes>),
    /// Write a request frame; a failed write fails the pending request.
    WriteReqMsg(bytes::Bytes, RequestId),
}

/// Why a directive could not be queued without waiting.
pub enum TrySendFailure<T> {
    /// The writer's channel is closed.
    Closed(T),
    /// The writer's channel is full.
    Full(T),
}

/// The directive carries a frame to write.
pub open spec fn is_write(d: WriterDirective) -> bool {
    d is WriteMsg || d is WriteMsgBurst || d is WriteReqMsg
}

/// The error of a failed attempt to queue a write directive.
pub fn convert_deferred_write_err(e: TrySendFailure<WriterDirective>) -> (r: TrySendMsgError)
    requires
        e matches TrySendFailure::Full(d) ==> is_write(d),
    ensures
        r == match e {
            TrySendFailure::Closed(_) => TrySendMsgError::ChannelClosed,
            TrySendFailure::Full(_) => TrySendMsgError::ChannelAtCapacity,
        },
{
    match e {
        TrySendFailure::Closed(_) => TrySendMsgError::ChannelClosed,
        TrySendFailure::Full(_) => TrySendMsgError::ChannelAtCapacity,
    }
}

/// The error of a failed attempt to queue a control directive.
pub fn convert_deferred_action_err(e: TrySendFailure<WriterDirective>) -> (r: TrySendMsgError)
    ensures
        r == match e {
            TrySendFailure::Closed(_) => TrySendMsgError::ChannelClosed,
            TrySendFailure::Full(_) => TrySendMsgError::ChannelAtCapacity,
        },
{
    match e {
        TrySendFailure::Closed(_) => TrySendMsgError::ChannelClosed,
        TrySendFailure::Full(_) => TrySendMsgError::ChannelAtCapacity,
    }
}

/// What the writer does for a directive.
#[derive(Debug, Clone, Copy, PartialEq, Eq, Structural)]
pub enum WriterAction {
    /// Close the directive channel, then close the transport.
    CloseNow,
    /// Close the directive channel and keep writing what is queued.
    CloseChannel,
    Flush,
    Write,
    WriteBurst,
    /// Write a request frame.
    WriteRequest,
}

/// What the writer does after an action.
#[derive(Debug, Clone, Copy, PartialEq, Eq, Structural)]
pub enum WriterStep {
    /// Take the next directive.
    Continue,
    /// Stop with the given exit type.
    Exit(WriteRunnerExitType),
    /// Stop: closing the transport failed.
    CloseFailed,
    /// Stop: flushing the transport failed.
    FlushFailed,
    /// Stop: a write failed.
    WriteFailed,
    /// Mark the request as failed to write, then stop: the write failed.
    RequestWriteFailed,
}

/// The background writer's state: how it will exit when its channel ends.
pub struct WriterState {
    pub exit_type: WriteRunnerExitType,
}

impl WriterState {
    /// The state of a new writer: it exits because all handles dropped
    /// unless told to close.
    pub fn new() -> (r: WriterState)
        ensures
            r.exit_type == WriteRunnerExitType::AllHandleDropped,
    {
        WriterState { exit_type: WriteRunnerExitType::AllHandleDropped }
    }

    /// The action for a directive. A close-after-flush makes the writer exit
    /// as manually closed once the queued directives are written.
    pub fn action(&mut self, d: &WriterDirective) -> (a: WriterAction)
        ensures
            a == match *d {
                WriterDirective::CloseImmediately => WriterAction::CloseNow,
                WriterDirective::CloseAfterFlush => WriterAction::CloseChannel,
                WriterDirective::Flush => WriterAction::Flush,
                WriterDirective::WriteMsg(_) => WriterAction::Write,
                WriterDirective::WriteMsgBurst(_) => WriterAction::WriteBurst,
                WriterDirective::WriteReqMsg(_, _) => WriterAction::WriteRequest,
            },
            final(self).exit_type == if d is CloseAfterFlush {
                WriteRunnerExitType::ManualClose
            } else {
                old(self).exit_type
            },
    {
        match d {
            WriterDirective::CloseImmediately => WriterAction::CloseNow,
            WriterDirective::CloseAfterFlush => {
                self.exit_type = WriteRunnerExitType::ManualClose;
                WriterAction::CloseChannel
            },
            WriterDirective::Flush => WriterAction::Flush,
            WriterDirective::WriteMsg(_) => WriterAction::Write,
            WriterDirective::WriteMsgBurst(_) => WriterAction::WriteBurst,
            WriterDirective::WriteReqMsg(_, _) => WriterAction::WriteRequest,
        }
    }

    /// The step after an action whose transport operation succeeded (`io_ok`)
    /// or failed. For a request write, `context_alive` tells whether any
    /// request handle remains; without one a failed request write is ignored.
    pub fn after(&self, a: WriterAction, io_ok: bool, context_alive: bool) -> (r: WriterStep)
        ensures
            r == match a {
                WriterAction::CloseNow => if io_ok {
                    WriterStep::Exit(WriteRunnerExitType::ManualCloseImmediate)
                } else {
                    WriterStep::CloseFailed
                },
                WriterAction::CloseChannel => WriterStep::Continue,
                WriterAction::Flush => if io_ok {
                    WriterStep::Continue
                } else {
                    WriterStep::FlushFailed
                },
                WriterAction::Write | WriterAction::WriteBurst => if io_ok {
                    WriterStep::Continue
                } else {
                    WriterStep::WriteFailed
                },
                WriterAction::WriteRequest => if io_ok || !context_alive {
                    WriterStep::Continue
                } else {
                    WriterStep::RequestWriteFailed
                },
            },
    {
        match a {
            WriterAction::CloseNow => if io_ok {
                WriterStep::Exit(WriteRunnerExitType::ManualCloseImmediate)
            } else {
                WriterStep::CloseFailed
            },
            WriterAction::CloseChannel => WriterStep::Continue,
            WriterAction::Flush => if io_ok {
                WriterStep::Continue
            } else {
                WriterStep::FlushFailed
            },
            WriterAction::Write | WriterAction::WriteBurst => if io_ok {
                WriterStep::Continue
            } else {
                WriterStep::WriteFailed
            },
            WriterAction::WriteRequest => if io_ok || !context_alive {
                WriterStep::Continue
            } else {
                WriterStep::RequestWriteFailed
            },
        }
    }

    /// When the directive channel has ended: whether the transport must still
    /// be closed, and the exit type. After a close-after-flush every queued
    /// directive has now been written, so the transport is closed; when the
    /// channel ended because every handle was dropped it is left as it is.
    pub fn on_channel_end(&self) -> (r: (bool, WriteRunnerExitType))
        ensures
            r == (self.exit_type == WriteRunnerExitType::ManualClose, self.exit_type),
    {
        (self.exit_type == WriteRunnerExitType::ManualClose, self.exit_type)
    }
}

/// The writer never reaches the end of its channel in the state of an
/// immediate close: only a close-after-flush changes its exit type.
pub proof fn lemma_writer_exit_type(d: WriterDirective, before: WriteRunnerExitType)
    requires
        before != WriteRunnerExitType::ManualCloseImmediate,
    ensures
        (if d is CloseAfterFlush {
            WriteRunnerExitType::ManualClose
        } else {
            before
        }) != WriteRunnerExitType::ManualCloseImmediate,
{
}

/// The writer's exit type after it took the directives `ds` in turn,
/// starting from `start` (each step as [`WriterState::action`] makes it).
pub open spec fn exit_type_after(start: WriteRunnerExitType, ds: Seq<WriterDirective>) -> WriteRunnerExitType
    decreases ds.len(),
{
    if ds.len() == 0 {
        start
    } else {
        let prev = exit_type_after(start, ds.drop_last());
        if ds.last() is CloseAfterFlush {
            WriteRunnerExitType::ManualClose
        } else {
            prev
        }
    }
}

/// Once a close-after-flush was taken, the writer stays in the state of a
/// manual close whatever directives follow, so when its channel ends it
/// closes the transport (see [`WriterState::on_channel_end`]).
pub proof fn lemma_close_after_flush_closes(before: Seq<WriterDirective>, rest: Seq<WriterDirective>)
    ensures
        exit_type_after(
            WriteRunnerExitType::AllHandleDropped,
            before.push(WriterDirective::CloseAfterFlush) + rest,
        ) == WriteRunnerExitType::ManualClose,
    decreases rest.len(),
{
    let pre = before.push(WriterDirective::CloseAfterFlush);
    if rest.len() == 0 {
        assert(pre + rest =~= pre);
        assert(pre.drop_last() =~= before);
    } else {
        lemma_close_after_flush_closes(before, rest.drop_last());
        assert((pre + rest).drop_last() =~= pre + rest.drop_last());
    }
}

/* ------------------------------------------ Prepared packets ------------------------------------------ */

/// A message that was encoded but not yet sent; `hash` identifies the codec
/// that encoded it.
#[derive(Debug)]
pub struct PreparedPacket<C> {
    _c: core::marker::PhantomData<C>,
    data: bytes::Bytes,
    hash: usize,
}

impl<C> PreparedPacket<C> {
    #[verifier::type_invariant]
    spec fn hash_nonzero(self) -> bool {
        self.hash != 0
    }

    /// The codec identity of this packet.
    pub closed spec fn spec_hash(self) -> usize {
        self.hash
    }

    /// The encoded frame of this packet.
    pub closed spec fn spec_data(self) -> bytes::Bytes {
        self.data
    }

    /// The codec identity of this packet; never zero.
    pub fn hash(&self) -> (r: usize)
        ensures
            r == self.spec_hash(),
            r != 0,
    {
        proof {
            use_type_invariant(self);
        }
        self.hash
    }

    /// The encoded frame of this packet.
    pub fn data(&self) -> (r: &bytes::Bytes)
        ensures
            *r == self.spec_data(),
    {
        &self.data
    }

    fn into_data(self) -> (r: bytes::Bytes)
        ensures
            r == self.spec_data(),
    {
        self.data
    }

    /// A packet of `data` encoded by the codec identified by `hash`.
    pub fn new_unchecked(data: bytes::Bytes, hash: usize) -> (r: PreparedPacket<C>)
        requires
            hash != 0,
        ensures
            r.spec_data() == data,
            r.spec_hash() == hash,
    {
        PreparedPacket { _c: core::marker::PhantomData, data, hash }
    }
}

impl<C> Clone for PreparedPacket<C> {
    fn clone(&self) -> (r: PreparedPacket<C>)
        ensures
            r.spec_hash() == self.spec_hash(),
            bytes_view(r.spec_data()) == bytes_view(self.spec_data()),
    {
        proof {
            use_type_invariant(self);
        }
        PreparedPacket { _c: core::marker::PhantomData, hash: self.hash, data: bytes_clone(&self.data) }
    }
}

/// A batch of prepared packets to write at once.
pub enum PacketWriteBurst<C> {
    /// The packets were encoded by different codecs.
    ErrHashMismatch,
    Empty,
    Mono(PreparedPacket<C>),
    /// Two or more frames of the codec identified by the hash.
    Burst(usize, Vec<bytes::Bytes>),
}

/// All packets were encoded by the codec identified by `h`.
pub open spec fn all_hash<C>(s: Seq<PreparedPacket<C>>, h: usize) -> bool {
    forall|i: int| 0 <= i < s.len() ==> #[trigger] s[i].spec_hash() == h
}

impl<C> PacketWriteBurst<C> {
    /// Groups prepared packets into a burst: none makes `Empty`, one makes
    /// `Mono`, more make `Burst` when all were encoded by the first packet's
    /// codec and `ErrHashMismatch` otherwise.
    #[verifier::loop_isolation(false)]
    pub fn from_packets(packets: Vec<PreparedPacket<C>>) -> (r: PacketWriteBurst<C>)
        ensures
            packets@.len() == 0 ==> r is Empty,
            packets@.len() == 1 ==> r == PacketWriteBurst::Mono(packets@[0]),
            packets@.len() >= 2 && all_hash(packets@, packets@[0].spec_hash()) ==> (r matches PacketWriteBurst::Burst(
                h,
                chunks,
            ) && h == packets@[0].spec_hash() && chunks@ == packets@.map_values(|p: PreparedPacket<C>| p.spec_data())),
            packets@.len() >= 2 && !all_hash(packets@, packets@[0].spec_hash()) ==> r is ErrHashMismatch,
    {
        let n = packets.len();
        if n == 0 {
            return PacketWriteBurst::Empty;
        }
        let ghost orig = packets@;
        let mut packets = packets;
        if n == 1 {
            let one = packets.pop().unwrap();
            return PacketWriteBurst::Mono(one);
        }
        let codec_hash = packets[0].hash();
        let mut chunks: Vec<bytes::Bytes> = Vec::new();
        let mut i: usize = 0;
        while i < n
            invariant
                n == orig.len(),
                n >= 2,
                i <= n,
                codec_hash == orig[0].spec_hash(),
                packets@ == orig.subrange(i as int, n as int),
                all_hash(orig.subrange(0, i as int), codec_hash),
                chunks@ == orig.subrange(0, i as int).map_values(|p: PreparedPacket<C>| p.spec_data()),
            decreases n - i,
        {
            let elem = packets.remove(0);
            if elem.hash() != codec_hash {
                assert(orig[i as int] == elem);
                return PacketWriteBurst::ErrHashMismatch;
            }
            proof {
                assert(orig[i as int] == elem);
            }
            chunks.push(elem.into_data());
            i = i + 1;
            proof {
                assert(orig.subrange(0, i as int).drop_last() =~= orig.subrange(0, i - 1));
                assert(chunks@ =~= orig.subrange(0, i as int).map_values(|p: PreparedPacket<C>| p.spec_data()));
                assert forall|j: int| 0 <= j < i implies #[trigger] orig.subrange(0, i as int)[j].spec_hash()
                    == codec_hash by {
                    if j < i - 1 {
                        assert(orig.subrange(0, i as int)[j] == orig.subrange(0, i - 1)[j]);
                    }
                }
            }
        }
        assert(orig.subrange(0, n as int) =~= orig);
        PacketWriteBurst::Burst(codec_hash, chunks)
    }
}

/// Turns a burst into the directive that writes it, with the number of
/// frames, for a connection whose codec is identified by `codec_hash`.
/// Nothing is written for an empty burst; packets of another codec are
/// refused.
pub fn burst_into_directive<C>(burst: PacketWriteBurst<C>, codec_hash: usize) -> (r: Result<
    Option<(usize, WriterDirective)>,
    EncodeError,
>)
    ensures
        match burst {
            PacketWriteBurst::Empty => r == Ok::<Option<(usize, WriterDirective)>, EncodeError>(None),
            PacketWriteBurst::ErrHashMismatch => r == Err::<Option<(usize, WriterDirective)>, EncodeError>(
                EncodeError::NotReusable,
            ),
            PacketWriteBurst::Mono(pkt) => if pkt.spec_hash() == codec_hash {
                r == Ok::<Option<(usize, WriterDirective)>, EncodeError>(
                    Some((1usize, WriterDirective::WriteMsg(pkt.spec_data()))),
                )
            } else {
                r == Err::<Option<(usize, WriterDirective)>, EncodeError>(EncodeError::NotReusable)
            },
            PacketWriteBurst::Burst(h, chunks) => if h == codec_hash {
                r == Ok::<Option<(usize, WriterDirective)>, EncodeError>(
                    Some((chunks.len(), WriterDirective::WriteMsgBurst(chunks))),
                )
            } else {
                r == Err::<Option<(usize, WriterDirective)>, EncodeError>(EncodeError::NotReusable)
            },
        },
{
    match burst {
        PacketWriteBurst::Empty => Ok(None),
        PacketWriteBurst::ErrHashMismatch => Err(EncodeError::NotReusable),
        PacketWriteBurst::Mono(pkt) => {
            if pkt.hash() == codec_hash {
                Ok(Some((1, WriterDirective::WriteMsg(pkt.into_data()))))
            } else {
                Err(EncodeError::NotReusable)
            }
        },
        PacketWriteBurst::Burst(h, chunks) => {
            if h == codec_hash {
                let n = chunks.len();
                Ok(Some((n, WriterDirective::WriteMsgBurst(chunks))))
            } else {
                Err(EncodeError::NotReusable)
            }
        },
    }
}

/* ---------------------------------------------- Responses ---------------------------------------------- */

/// A successful response from the remote side.
#[derive(Debug)]
pub struct Response<C> {
    pub codec: C,
    pub payload: bytes::Bytes,
}

/// An error response from the remote side.
#[derive(Debug)]
pub struct ErrorResponse<C> {
    pub errc: ResponseError,
    pub codec: C,
    pub payload: bytes::Bytes,
}

impl<C> ErrorResponse<C> {
    pub fn errc(&self) -> (r: ResponseError)
        ensures
            r == self.errc,
    {
        self.errc
    }
}

/// A response carrying an error code is an error response.
pub fn make_response<C>(codec: C, payload: bytes::Bytes, errc: Option<ResponseError>) -> (r: Result<
    Response<C>,
    ErrorResponse<C>,
>)
    ensures
        r == match errc {
            Some(e) => Err::<Response<C>, ErrorResponse<C>>(ErrorResponse { errc: e, codec, payload }),
            None => Ok::<Response<C>, ErrorResponse<C>>(Response { codec, payload }),
        },
{
    if let Some(errc) = errc {
        Err(ErrorResponse { codec, payload, errc })
    } else {
        Ok(Response { codec, payload })
    }
}

/// Error while trying to receive a response without waiting.
#[derive(Debug)]
pub enum ResponseReceiveError<C> {
    /// The request context was closed; no response will come.
    Closed,
    /// No response yet.
    Empty,
    /// The response was already retrieved.
    Retrieved,
    /// The remote side responded with an error.
    Response(ErrorResponse<C>),
}

impl<C> ResponseReceiveError<C> {
    pub fn into_response(self) -> (r: Option<ErrorResponse<C>>)
        ensures
            r == match self {
                ResponseReceiveError::Response(e) => Some(e),
                _ => None,
            },
    {
        match self {
            ResponseReceiveError::Response(e) => Some(e),
            _ => None,
        }
    }

    pub fn as_response(&self) -> (r: Option<&ErrorResponse<C>>)
        ensures
            r == match *self {
                ResponseReceiveError::Response(e) => Some(&e),
                _ => None,
            },
    {
        match self {
            ResponseReceiveError::Response(e) => Some(e),
            _ => None,
        }
    }
}

/// The response slot of a pending request.
#[derive(Debug)]
pub enum ResponseData {
    /// No response yet.
    Waiting,
    /// The response arrived: its payload and error code.
    Ready(bytes::Bytes, Option<ResponseError>),
    /// The connection closed before a response arrived.
    Closed,
    /// The response was taken and the slot awaits removal.
    PendingRemove,
}

/// The outcome of polling a response slot.
#[derive(Debug)]
pub enum ResponsePoll {
    Pending,
    /// The response, or `None` when the connection closed.
    Ready(Option<(bytes::Bytes, Option<ResponseError>)>),
}

impl ResponseData {
    /// Takes the response out of the slot, if it arrived. A taken response
    /// leaves the slot pending removal; a slot pending removal is never
    /// polled again.
    pub fn poll(&mut self) -> (r: ResponsePoll)
        requires
            !(*old(self) is PendingRemove),
        ensures
            match *old(self) {
                ResponseData::Waiting => r is Pending && *final(self) == ResponseData::Waiting,
                ResponseData::Ready(b, e) => r == ResponsePoll::Ready(Some((b, e)))
                    && *final(self) == ResponseData::PendingRemove,
                _ => r == ResponsePoll::Ready(None) && *final(self) == ResponseData::Closed,
            },
    {
        let mut data = ResponseData::PendingRemove;
        core::mem::swap(self, &mut data);
        match data {
            ResponseData::Waiting => {
                *self = ResponseData::Waiting;
                ResponsePoll::Pending
            },
            ResponseData::Ready(b, e) => ResponsePoll::Ready(Some((b, e))),
            _ => {
                *self = ResponseData::Closed;
                ResponsePoll::Ready(None)
            },
        }
    }
}

/// Receives the response of a pending request without waiting. `expired`
/// tells whether the request context was closed; `slot` is the request's
/// response slot, `None` once the response was retrieved. A delivered or
/// closed slot is unregistered (set to `None`).
pub fn try_receive<C>(codec: C, expired: bool, slot: &mut Option<ResponseData>) -> (r: Result<
    Response<C>,
    ResponseReceiveError<C>,
>)
    requires
        *old(slot) != Some(ResponseData::PendingRemove),
    ensures
        expired ==> (r matches Err(ResponseReceiveError::Closed) && *final(slot) == *old(slot)),
        !expired ==> match *old(slot) {
            None => (r matches Err(ResponseReceiveError::Retrieved) && *final(slot) == *old(slot)),
            Some(ResponseData::Waiting) => (r matches Err(ResponseReceiveError::Empty)
                && *final(slot) == *old(slot)),
            Some(ResponseData::Ready(b, e)) => *final(slot) == None::<ResponseData> && r == match e {
                Some(ec) => Err::<Response<C>, ResponseReceiveError<C>>(
                    ResponseReceiveError::Response(ErrorResponse { errc: ec, codec, payload: b }),
                ),
                None => Ok::<Response<C>, ResponseReceiveError<C>>(Response { codec, payload: b }),
            },
            Some(_) => (r matches Err(ResponseReceiveError::Closed) && *final(slot)
                == None::<ResponseData>),
        },
{
    if expired {
        return Err(ResponseReceiveError::Closed);
    }
    let mut data = match slot.take() {
        Some(d) => d,
        None => return Err(ResponseReceiveError::Retrieved),
    };
    match data.poll() {
        ResponsePoll::Pending => {
            *slot = Some(data);
            Err(ResponseReceiveError::Empty)
        },
        ResponsePoll::Ready(Some((payload, errc))) => match make_response(codec, payload, errc) {
            Ok(resp) => Ok(resp),
            Err(e) => Err(ResponseReceiveError::Response(e)),
        },
        ResponsePoll::Ready(None) => Err(ResponseReceiveError::Closed),
    }
}

/// The outcome of one poll of a response future.
pub enum ReceivePoll<C> {
    Pending,
    /// The response, or the error response (`Some`), or `None` when no
    /// response will come (closed, or already taken).
    Ready(Result<Response<C>, Option<ErrorResponse<C>>>),
}

/// One poll of the future that waits for a response: like [`try_receive`],
/// except that a closed context and a taken response both end the wait with
/// no error response.
pub fn poll_receive<C>(codec: C, expired: bool, slot: &mut Option<ResponseData>) -> (r: ReceivePoll<C>)
    requires
        *old(slot) != Some(ResponseData::PendingRemove),
    ensures
        expired ==> (r == ReceivePoll::<C>::Ready(Err(None)) && *final(slot) == *old(slot)),
        !expired ==> match *old(slot) {
            None => r == ReceivePoll::<C>::Ready(Err(None)) && *final(slot) == *old(slot),
            Some(ResponseData::Waiting) => r is Pending && *final(slot) == *old(slot),
            Some(ResponseData::Ready(b, e)) => *final(slot) == None::<ResponseData> && r == match e {
                Some(ec) => ReceivePoll::<C>::Ready(
                    Err(Some(ErrorResponse { errc: ec, codec, payload: b })),
                ),
                None => ReceivePoll::<C>::Ready(Ok(Response { codec, payload: b })),
            },
            Some(_) => r == ReceivePoll::<C>::Ready(Err(None)) && *final(slot) == None::<
                ResponseData,
            >,
        },
{
    match try_receive(codec, expired, slot) {
        Ok(resp) => ReceivePoll::Ready(Ok(resp)),
        Err(ResponseReceiveError::Empty) => ReceivePoll::Pending,
        Err(ResponseReceiveError::Response(e)) => ReceivePoll::Ready(Err(Some(e))),
        Err(_) => ReceivePoll::Ready(Err(None)),
    }
}

/// Why waiting for a typed response failed.
pub enum CachedWaitError<C, E> {
    /// No response will come.
    Closed,
    /// No response yet.
    Empty,
    /// The response was already taken.
    Retrieved,
    /// The remote side answered with an error, parsed as `E`.
    Response(ErrorResponse<C>, E),
    /// The response (or error response) did not parse as the wanted type.
    DeserializeFailed(DeserializeError, Result<Response<C>, ErrorResponse<C>>),
}

impl<C, E> CachedWaitError<C, E> {
    pub fn into_response(self) -> (r: Option<(ErrorResponse<C>, E)>)
        ensures
            r == match self {
                CachedWaitError::Response(e, v) => Some((e, v)),
                _ => None,
            },
    {
        match self {
            CachedWaitError::Response(e, v) => Some((e, v)),
            _ => None,
        }
    }

    pub fn as_response(&self) -> (r: Option<(&ErrorResponse<C>, &E)>)
        ensures
            r == match *self {
                CachedWaitError::Response(e, v) => Some((&e, &v)),
                _ => None,
            },
    {
        match self {
            CachedWaitError::Response(e, v) => Some((e, v)),
            _ => None,
        }
    }
}

/// Reads a received response as typed values: a response is parsed by
/// `parse_ok`, an error response by `parse_err`; a failed parse keeps the
/// response with the error.
pub fn cached_wait_result<C, T, E, F, G>(
    received: Result<Response<C>, ResponseReceiveError<C>>,
    parse_ok: F,
    parse_err: G,
) -> (r: Result<(Response<C>, T), CachedWaitError<C, E>>) where
    F: FnOnce(&Response<C>) -> Result<T, DeserializeError>,
    G: FnOnce(&ErrorResponse<C>) -> Result<E, DeserializeError>,

    requires
        received matches Ok(resp) ==> call_requires(parse_ok, (&resp,)),
        received matches Err(ResponseReceiveError::Response(e)) ==> call_requires(parse_err, (&e,)),
    ensures
        match received {
            Ok(resp) => exists|p: Result<T, DeserializeError>| #[trigger]
                call_ensures(parse_ok, (&resp,), p) && r == match p {
                    Ok(v) => Ok::<(Response<C>, T), CachedWaitError<C, E>>((resp, v)),
                    Err(d) => Err(CachedWaitError::DeserializeFailed(d, Ok(resp))),
                },
            Err(ResponseReceiveError::Closed) => r == Err::<(Response<C>, T), CachedWaitError<C, E>>(
                CachedWaitError::Closed,
            ),
            Err(ResponseReceiveError::Empty) => r == Err::<(Response<C>, T), CachedWaitError<C, E>>(
                CachedWaitError::Empty,
            ),
            Err(ResponseReceiveError::Retrieved) => r == Err::<
                (Response<C>, T),
                CachedWaitError<C, E>,
            >(CachedWaitError::Retrieved),
            Err(ResponseReceiveError::Response(e)) => exists|p: Result<E, DeserializeError>| #[trigger]
                call_ensures(parse_err, (&e,), p) && r == match p {
                    Ok(v) => Err::<(Response<C>, T), CachedWaitError<C, E>>(
                        CachedWaitError::Response(e, v),
                    ),
                    Err(d) => Err(CachedWaitError::DeserializeFailed(d, Err(e))),
                },
        },
{
    match received {
        Ok(resp) => {
            let parsed = parse_ok(&resp);
            match parsed {
                Ok(v) => Ok((resp, v)),
                Err(d) => Err(CachedWaitError::DeserializeFailed(d, Ok(resp))),
            }
        },
        Err(ResponseReceiveError::Closed) => Err(CachedWaitError::Closed),
        Err(ResponseReceiveError::Empty) => Err(CachedWaitError::Empty),
        Err(ResponseReceiveError::Retrieved) => Err(CachedWaitError::Retrieved),
        Err(ResponseReceiveError::Response(e)) => {
            let parsed = parse_err(&e);
            match parsed {
                Ok(v) => Err(CachedWaitError::Response(e, v)),
                Err(d) => Err(CachedWaitError::DeserializeFailed(d, Err(e))),
            }
        },
    }
}

/// What a response is sent with: a result, or an error code with an
/// optional error object.
pub struct ResponsePayload<T>(pub Result<T, (ResponseError, Option<T>)>);

impl From<ResponseError> for ResponsePayload<()> {
    fn from(code: ResponseError) -> (r: ResponsePayload<()>) {
        ResponsePayload(Err((code, None)))
    }
}

impl vstd::std_specs::convert::FromSpecImpl<ResponseError> for ResponsePayload<()> {
    open spec fn obeys_from_spec() -> bool {
        true
    }

    open spec fn from_spec(code: ResponseError) -> ResponsePayload<()> {
        ResponsePayload(Err((code, None)))
    }
}

impl<T> From<Result<T, T>> for ResponsePayload<T> {
    fn from(result: Result<T, T>) -> (r: ResponsePayload<T>) {
        match result {
            Ok(obj) => ResponsePayload(Ok(obj)),
            Err(obj) => ResponsePayload(Err((ResponseError::Unknown, Some(obj)))),
        }
    }
}

impl<T> vstd::std_specs::convert::FromSpecImpl<Result<T, T>> for ResponsePayload<T> {
    open spec fn obeys_from_spec() -> bool {
        true
    }

    open spec fn from_spec(result: Result<T, T>) -> ResponsePayload<T> {
        match result {
            Ok(obj) => ResponsePayload(Ok(obj)),
            Err(obj) => ResponsePayload(Err((ResponseError::Unknown, Some(obj)))),
        }
    }
}

impl<T> From<(ResponseError, T)> for ResponsePayload<T> {
    fn from(v: (ResponseError, T)) -> (r: ResponsePayload<T>) {
        let (code, obj) = v;
        ResponsePayload(Err((code, Some(obj))))
    }
}

impl<T> vstd::std_specs::convert::FromSpecImpl<(ResponseError, T)> for ResponsePayload<T> {
    open spec fn obeys_from_spec() -> bool {
        true
    }

    open spec fn from_spec(v: (ResponseError, T)) -> ResponsePayload<T> {
        ResponsePayload(Err((v.0, Some(v.1))))
    }
}

/// How a response payload is handed to the codec: an error with an object
/// but no code (`Unknown`) is sent as the object alone.
pub fn encode_payload<T>(payload: &ResponsePayload<T>) -> (r: EncodeResponsePayload<'_, T>)
    ensures
        r == match payload.0 {
            Ok(obj) => EncodeResponsePayload::Okay(&obj),
            Err((ResponseError::Unknown, Some(obj))) => EncodeResponsePayload::ErrObjectOnly(&obj),
            Err((errc, Some(obj))) => EncodeResponsePayload::ErrCodeAndObject(errc, &obj),
            Err((errc, None)) => EncodeResponsePayload::ErrCodeOnly(errc),
        },
{
    match &payload.0 {
        Ok(obj) => EncodeResponsePayload::Okay(obj),
        Err((ResponseError::Unknown, Some(obj))) => EncodeResponsePayload::ErrObjectOnly(obj),
        Err((errc, Some(obj))) => EncodeResponsePayload::ErrCodeAndObject(*errc, obj),
        Err((errc, None)) => EncodeResponsePayload::ErrCodeOnly(*errc),
    }
}

/* ------------------------------------------ Pending requests ------------------------------------------ */

/// The pending requests of a connection, by request id, and whether the
/// connection still accepts requests.
pub struct RequestContext<T> {
    wait_list: std::collections::HashMap<u64, T>,
    expired: bool,
}

impl<T> View for RequestContext<T> {
    type V = (Map<u64, T>, bool);

    closed spec fn view(&self) -> (Map<u64, T>, bool) {
        (self.wait_list@, self.expired)
    }
}

impl<T> RequestContext<T> {
    /// A context with no pending request.
    pub fn new() -> (r: RequestContext<T>)
        ensures
            r@ == (Map::<u64, T>::empty(), false),
    {
        RequestContext { wait_list: std::collections::HashMap::new(), expired: false }
    }

    /// Registers a request under `id` with its wait object; fails, leaving
    /// the context unchanged, when `id` is already pending or the context
    /// expired (an expired context takes no more requests).
    pub fn try_allocate_new_request(&mut self, id: RequestId, wait_obj: T) -> (r: bool)
        ensures
            r == (!old(self)@.0.contains_key(id@) && !old(self)@.1),
            r ==> final(self)@.0 == old(self)@.0.insert(id@, wait_obj),
            !r ==> final(self)@.0 == old(self)@.0,
            final(self)@.1 == old(self)@.1,
    {
        broadcast use vstd::std_specs::hash::group_hash_axioms;

        let key = id.value();
        if self.expired || self.wait_list.contains_key(&key) {
            false
        } else {
            self.wait_list.insert(key, wait_obj);
            true
        }
    }

    /// Unregisters a pending request (which must be pending) and returns its
    /// wait object.
    pub fn free_request_id(&mut self, id: RequestId) -> (r: T)
        requires
            old(self)@.0.contains_key(id@),
        ensures
            r == old(self)@.0[id@],
            final(self)@.0 == old(self)@.0.remove(id@),
            final(self)@.1 == old(self)@.1,
    {
        broadcast use vstd::std_specs::hash::group_hash_axioms;

        let key = id.value();
        self.wait_list.remove(&key).unwrap()
    }

    /// Whether request id `id` is pending.
    pub fn is_pending(&self, id: RequestId) -> (r: bool)
        ensures
            r == self@.0.contains_key(id@),
    {
        broadcast use vstd::std_specs::hash::group_hash_axioms;

        self.wait_list.contains_key(&id.value())
    }

    /// Marks the context as expired; returns whether it already was.
    pub fn mark_expired(&mut self) -> (r: bool)
        ensures
            r == old(self)@.1,
            final(self)@ == (old(self)@.0, true),
    {
        let was = self.expired;
        self.expired = true;
        was
    }

    pub fn is_expired(&self) -> (r: bool)
        ensures
            r == self@.1,
    {
        self.expired
    }
}

impl RequestContext<ResponseData> {
    /// Fails pending request `id`, whose frame could not be written: its
    /// slot is closed, so its waiter gets no response. Nothing changes when
    /// `id` is not pending.
    pub fn invalidate_request(&mut self, id: RequestId)
        ensures
            old(self)@.0.contains_key(id@) ==> final(self)@.0 == old(self)@.0.insert(
                id@,
                ResponseData::Closed,
            ),
            !old(self)@.0.contains_key(id@) ==> final(self)@.0 == old(self)@.0,
            final(self)@.1 == old(self)@.1,
    {
        broadcast use vstd::std_specs::hash::group_hash_axioms;

        let key = id.value();
        if self.wait_list.contains_key(&key) {
            self.wait_list.insert(key, ResponseData::Closed);
        }
    }

    /// Sets the response of pending request `id`: its slot becomes ready with
    /// `payload` and `errc`. When `id` is not pending the payload is handed
    /// back and nothing changes.
    pub fn set_response(&mut self, id: RequestId, payload: bytes::Bytes, errc: Option<ResponseError>) -> (r:
        Result<(), bytes::Bytes>)
        ensures
            old(self)@.0.contains_key(id@) ==> r is Ok && final(self)@.0 == old(self)@.0.insert(
                id@,
                ResponseData::Ready(payload, errc),
            ),
            !old(self)@.0.contains_key(id@) ==> r == Err::<(), bytes::Bytes>(payload)
                && final(self)@.0 == old(self)@.0,
            final(self)@.1 == old(self)@.1,
    {
        broadcast use vstd::std_specs::hash::group_hash_axioms;

        let key = id.value();
        if self.wait_list.contains_key(&key) {
            self.wait_list.insert(key, ResponseData::Ready(payload, errc));
            Ok(())
        } else {
            Err(payload)
        }
    }
}

/// A request registered under an id is pending until it is freed, and
/// freeing it hands back what was registered.
pub proof fn lemma_request_lifecycle<T>(m: Map<u64, T>, id: u64, w: T)
    requires
        !m.contains_key(id),
    ensures
        m.insert(id, w).contains_key(id),
        m.insert(id, w)[id] == w,
        m.insert(id, w).remove(id) == m,
{
    assert(m.insert(id, w).remove(id) =~= m);
}

} // verus!
