//! Pending requests of a connection: request-id generation, the slots that
//! responses are delivered into, and the future that waits on one slot.

use vstd::prelude::*;
use crate::defs::RequestId;

verus! {

broadcast use vstd::std_specs::hash::group_hash_axioms;

/// Receiving a response failed: the connection is gone.
#[derive(Debug, Clone, Copy, PartialEq, Eq, Structural)]
pub enum RecvError {
    Disconnected,
}

/// Request context of a connection: the generator of request ids, and for
/// each pending request its response slot (`None` until the response
/// arrives).
pub struct RequestContext<R> {
    req_id_gen: IdGen,
    waiters: std::collections::HashMap<u64, Option<R>>,
}

impl<R> View for RequestContext<R> {
    type V = (u64, Map<u64, Option<R>>);

    closed spec fn view(&self) -> (u64, Map<u64, Option<R>>) {
        (self.req_id_gen.0, self.waiters@)
    }
}

/// The slot of a registered request, by its request id.
#[derive(Debug, Clone, Copy, PartialEq, Eq, Structural)]
pub struct RequestSlotId(pub RequestId);

/// A counter that advances by two from zero, wrapping: always even.
struct IdGen(u64);

impl IdGen {
    #[verifier::type_invariant]
    spec fn inv(self) -> bool {
        self.0 % 2 == 0
    }

    fn next(&mut self) -> (r: u64)
        ensures
            r == old(self).0 + 1,
            r % 2 == 1,
            final(self).0 % 2 == 0,
            final(self).0 == (old(self).0 + 2) % 0x1_0000_0000_0000_0000,
    {
        proof {
            use_type_invariant(&*self);
        }
        let base = self.0 + 1;
        *self = IdGen(self.0.wrapping_add(2));
        base
    }
}

impl<R> RequestContext<R> {
    pub fn new() -> (r: RequestContext<R>)
        ensures
            r@ == (0u64, Map::<u64, Option<R>>::empty()),
    {
        RequestContext { req_id_gen: IdGen(0), waiters: std::collections::HashMap::new() }
    }

    /// The next request-id base: one more than the generator, which then
    /// advances by two (wrapping). The base is odd, hence never zero.
    pub fn next_req_id_base(&mut self) -> (r: RequestId)
        ensures
            r@ == old(self)@.0 + 1,
            r@ % 2 == 1,
            final(self)@.0 % 2 == 0,
            final(self)@.0 == (old(self)@.0 + 2) % 0x1_0000_0000_0000_0000,
            final(self)@.1 == old(self)@.1,
    {
        let base = self.req_id_gen.next();
        RequestId::new(base)
    }

    /// Registers an empty response slot for `id`. An id that is already
    /// pending is a collision, which callers must rule out.
    pub fn register_req(&mut self, id: RequestId) -> (r: RequestSlotId)
        requires
            !old(self)@.1.contains_key(id@),
        ensures
            r == RequestSlotId(id),
            final(self)@.1 == old(self)@.1.insert(id@, None::<R>),
            final(self)@.0 == old(self)@.0,
    {
        self.waiters.insert(id.value(), None);
        RequestSlotId(id)
    }

    /// Delivers `response` into the slot of request `id`; hands it back when
    /// no request `id` is pending.
    pub fn route_response(&mut self, id: RequestId, response: R) -> (r: Result<(), R>)
        ensures
            old(self)@.1.contains_key(id@) ==> r is Ok && final(self)@.1 == old(self)@.1.insert(
                id@,
                Some(response),
            ),
            !old(self)@.1.contains_key(id@) ==> r == Err::<(), R>(response) && final(self)@.1
                == old(self)@.1,
            final(self)@.0 == old(self)@.0,
    {
        let key = id.value();
        if self.waiters.contains_key(&key) {
            self.waiters.insert(key, Some(response));
            Ok(())
        } else {
            Err(response)
        }
    }

    /// Whether request `id` is pending.
    pub fn is_pending(&self, id: RequestId) -> (r: bool)
        ensures
            r == self@.1.contains_key(id@),
    {
        self.waiters.contains_key(&id.value())
    }

    /// Takes the response of request `id` if it arrived, unregistering the
    /// request; otherwise leaves everything as it is and gives `None`.
    pub fn take_ready(&mut self, id: RequestId) -> (r: Option<R>)
        ensures
            match old(self)@.1.get(id@) {
                Some(Some(v)) => r == Some(v) && final(self)@.1 == old(self)@.1.remove(id@),
                _ => r is None && final(self)@.1 == old(self)@.1,
            },
            final(self)@.0 == old(self)@.0,
    {
        let key = id.value();
        let ready = match self.waiters.get(&key) {
            Some(Some(_)) => true,
            _ => false,
        };
        if ready {
            match self.waiters.remove(&key) {
                Some(Some(v)) => Some(v),
                _ => None,
            }
        } else {
            None
        }
    }

    /// Unregisters pending request `id`, whatever its slot holds.
    pub fn unregister(&mut self, id: RequestId)
        requires
            old(self)@.1.contains_key(id@),
        ensures
            final(self)@.1 == old(self)@.1.remove(id@),
            final(self)@.0 == old(self)@.0,
    {
        let _ = self.waiters.remove(&id.value());
    }
}

/// `h` is the owned form of handle `c`: the handle itself when owned, a
/// clone of the borrowed one otherwise.
pub open spec fn owned_from<'a, H: Clone>(c: ConnRef<'a, H>, h: H) -> bool {
    match c {
        ConnRef::Borrowed(b) => vstd::pervasive::strictly_cloned(*b, h),
        ConnRef::Owned(o) => h == o,
    }
}

/// A connection handle, borrowed or owned.
pub enum ConnRef<'a, H> {
    Borrowed(&'a H),
    Owned(H),
}

impl<'a, H: Clone> ConnRef<'a, H> {
    /// The handle as an owned value (a clone of a borrowed handle).
    pub fn into_owned(self) -> (r: H)
        ensures
            owned_from(self, r),
    {
        match self {
            ConnRef::Borrowed(h) => h.clone(),
            ConnRef::Owned(h) => h,
        }
    }
}

enum ResponseFutureInner<'a, H> {
    Waiting(ConnRef<'a, H>, RequestId),
    Finished,
}

/// Waits for the response of one request. Once the response was taken the
/// future is finished.
pub struct ResponseFuture<'a, H>(ResponseFutureInner<'a, H>);

/// A [`ResponseFuture`] that owns its connection handle.
pub struct OwnedResponseFuture<H: 'static>(pub ResponseFuture<'static, H>);

/// The outcome of polling a response future.
pub enum ResponsePoll<R> {
    Pending,
    Ready(Result<R, RecvError>),
}

impl<'a, H> ResponseFuture<'a, H> {
    /// The request id waited on, or `None` once finished.
    pub closed spec fn waiting_id(self) -> Option<RequestId> {
        match self.0 {
            ResponseFutureInner::Waiting(_, id) => Some(id),
            ResponseFutureInner::Finished => None,
        }
    }

    /// The connection handle the future waits through, or `None` once
    /// finished.
    pub closed spec fn waiting_conn(self) -> Option<ConnRef<'a, H>> {
        match self.0 {
            ResponseFutureInner::Waiting(c, _) => Some(c),
            ResponseFutureInner::Finished => None,
        }
    }

    pub fn new(handle: &'a H, slot_id: RequestSlotId) -> (r: ResponseFuture<'a, H>)
        ensures
            r.waiting_id() == Some(slot_id.0),
    {
        ResponseFuture(ResponseFutureInner::Waiting(ConnRef::Borrowed(handle), slot_id.0))
    }

    /// Whether the response was already taken.
    pub fn is_terminated(&self) -> (r: bool)
        ensures
            r == (self.waiting_id() is None),
    {
        match &self.0 {
            ResponseFutureInner::Finished => true,
            _ => false,
        }
    }

    /// Takes the response without waiting: `Ok(None)` while it has not
    /// arrived (and after the future finished), `Err(Disconnected)` when the
    /// connection is gone. A taken response unregisters the request and
    /// finishes the future.
    pub fn try_recv<R>(&mut self, disconnected: bool, reqs: &mut RequestContext<R>) -> (r: Result<
        Option<R>,
        RecvError,
    >)
        ensures
            match old(self).waiting_id() {
                None => r == Ok::<Option<R>, RecvError>(None) && *final(self) == *old(self)
                    && final(reqs)@ == old(reqs)@,
                Some(id) => if disconnected {
                    r == Err::<Option<R>, RecvError>(RecvError::Disconnected) && *final(self)
                        == *old(self) && final(reqs)@ == old(reqs)@
                } else {
                    match old(reqs)@.1.get(id@) {
                        Some(Some(v)) => r == Ok::<Option<R>, RecvError>(Some(v))
                            && final(self).waiting_id() is None && final(reqs)@ == (
                            old(reqs)@.0,
                            old(reqs)@.1.remove(id@),
                        ),
                        _ => r == Ok::<Option<R>, RecvError>(None) && *final(self) == *old(self)
                            && final(reqs)@ == old(reqs)@,
                    }
                },
            },
    {
        let id = match &self.0 {
            ResponseFutureInner::Waiting(_, id) => *id,
            ResponseFutureInner::Finished => return Ok(None),
        };
        if disconnected {
            return Err(RecvError::Disconnected);
        }
        let value = reqs.take_ready(id);
        if value.is_some() {
            self.0 = ResponseFutureInner::Finished;
        }
        Ok(value)
    }

    /// One poll of the future, which must not have finished: ready with the
    /// response once it arrived, ready with `Disconnected` when the
    /// connection is gone, pending otherwise.
    pub fn poll_response<R>(&mut self, disconnected: bool, reqs: &mut RequestContext<R>) -> (r:
        ResponsePoll<R>)
        requires
            old(self).waiting_id() is Some,
        ensures
            ({
                let id = old(self).waiting_id()->0;
                if disconnected {
                    r == ResponsePoll::<R>::Ready(Err(RecvError::Disconnected)) && *final(self)
                        == *old(self) && final(reqs)@ == old(reqs)@
                } else {
                    match old(reqs)@.1.get(id@) {
                        Some(Some(v)) => r == ResponsePoll::<R>::Ready(Ok(v))
                            && final(self).waiting_id() is None && final(reqs)@ == (
                            old(reqs)@.0,
                            old(reqs)@.1.remove(id@),
                        ),
                        _ => r is Pending && *final(self) == *old(self) && final(reqs)@ == old(
                            reqs,
                        )@,
                    }
                }
            }),
    {
        match self.try_recv(disconnected, reqs) {
            Ok(Some(v)) => ResponsePoll::Ready(Ok(v)),
            Ok(None) => ResponsePoll::Pending,
            Err(e) => ResponsePoll::Ready(Err(e)),
        }
    }

    /// Drops the future: a future still waiting unregisters its request,
    /// which must be pending.
    pub fn release<R>(self, reqs: &mut RequestContext<R>)
        requires
            self.waiting_id() matches Some(id) ==> old(reqs)@.1.contains_key(id@),
        ensures
            match self.waiting_id() {
                Some(id) => final(reqs)@ == (old(reqs)@.0, old(reqs)@.1.remove(id@)),
                None => final(reqs)@ == old(reqs)@,
            },
    {
        match self.0 {
            ResponseFutureInner::Waiting(_, id) => reqs.unregister(id),
            ResponseFutureInner::Finished => {},
        }
    }
}

impl<'a, H: Clone + 'static> ResponseFuture<'a, H> {
    /// Detaches the future from the borrowed connection handle.
    pub fn to_owned(self) -> (r: OwnedResponseFuture<H>)
        ensures
            r.0.waiting_id() == self.waiting_id(),
            match self.waiting_conn() {
                None => r.0.waiting_conn() is None,
                Some(c) => r.0.waiting_conn() matches Some(ConnRef::Owned(h)) && owned_from(c, h),
            },
    {
        match self.0 {
            ResponseFutureInner::Waiting(conn, id) => OwnedResponseFuture(
                ResponseFuture(ResponseFutureInner::Waiting(ConnRef::Owned(conn.into_owned()), id)),
            ),
            ResponseFutureInner::Finished => OwnedResponseFuture(
                ResponseFuture(ResponseFutureInner::Finished),
            ),
        }
    }
}

/// A request's slot is empty from its registration until its response is
/// routed to it, and taking the routed response unregisters the request.
pub proof fn lemma_route_then_take<R>(m: Map<u64, Option<R>>, id: u64, resp: R)
    requires
        !m.contains_key(id),
    ensures
        m.insert(id, None::<R>).contains_key(id),
        m.insert(id, None::<R>).insert(id, Some(resp)).get(id) == Some(Some(resp)),
        m.insert(id, None::<R>).insert(id, Some(resp)).remove(id) == m,
{
    assert(m.insert(id, None::<R>).insert(id, Some(resp)).remove(id) =~= m);
}

} // verus!
