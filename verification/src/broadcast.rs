//! Broadcasting one notification to many peers: peers whose codecs encode
//! notifications alike (the same encoder hash) share one encoded frame.

use vstd::prelude::*;
use crate::buf::{bytes_clone, bytes_view};
use crate::conn::SendError;

verus! {

/// Keys strictly increase along the table.
pub open spec fn keys_sorted(s: Seq<(u64, bytes::Bytes)>) -> bool {
    forall|i: int, j: int| 0 <= i < j < s.len() ==> s[i].0 < s[j].0
}

/// The table holds key `k`.
pub open spec fn has_key(s: Seq<(u64, bytes::Bytes)>, k: u64) -> bool {
    exists|i: int| 0 <= i < s.len() && s[i].0 == k
}

/// Encoded frames, kept by encoder hash for the duration of one broadcast.
pub struct Broadcast {
    chunk_lut: Vec<(u64, bytes::Bytes)>,
}

impl View for Broadcast {
    type V = Seq<(u64, bytes::Bytes)>;

    closed spec fn view(&self) -> Seq<(u64, bytes::Bytes)> {
        self.chunk_lut@
    }
}

/// A peer that a notification is broadcast to, with notification
/// parameters of type `P`.
pub trait NotifyTarget<P> {
    /// The hash of this peer's notification encoder, when peers with the
    /// same hash encode notifications alike.
    fn notification_encoder_hash(&self) -> Option<u64>;

    /// Encodes the notification as this peer's codec does.
    fn encode_notify(&self, method: &str, params: &P) -> Result<bytes::Bytes, SendError>;

    /// Queues an encoded frame to this peer.
    fn write_bytes_deferred(&self, frame: bytes::Bytes) -> Result<(), SendError>;

    /// Encodes and queues the notification to this peer.
    fn notify_deferred(&self, method: &str, params: &P) -> Result<(), SendError>;
}

/// What a lookup for encoder hash `id` gives and leaves, from table
/// `before` to table `after`: nothing without a hash; the kept frame when
/// `id` is kept; otherwise one call of `encode`, whose frame is kept and
/// returned, or whose error is handed back with the table unchanged.
pub open spec fn lookup_outcome<E, F: FnOnce() -> Result<bytes::Bytes, E>>(
    before: Seq<(u64, bytes::Bytes)>,
    after: Seq<(u64, bytes::Bytes)>,
    id: Option<u64>,
    encode: F,
    r: Result<Option<bytes::Bytes>, E>,
) -> bool {
    match id {
        None => r matches Ok(None) && after == before,
        Some(k) => if has_key(before, k) {
            after == before && exists|i: int|
                0 <= i < before.len() && before[i].0 == k && (r matches Ok(Some(b))
                    && bytes_view(b) == bytes_view(before[i].1))
        } else {
            exists|res: Result<bytes::Bytes, E>| #[trigger]
                call_ensures(encode, (), res) && match res {
                    Err(e) => r matches Err(e2) && e2 == e && after == before,
                    Ok(b) => (r matches Ok(Some(b2)) && bytes_view(b2) == bytes_view(b))
                        && exists|i: int|
                        0 <= i <= before.len() && after == before.insert(
                            i,
                            (k, b),
                        ),
                }
        },
    }
}

/// Frame `b` is one that a broadcast may hand a peer of encoder hash `k`:
/// the frame kept for `k` in `kept` when the broadcast began, or the
/// encoding of one of the first `upto` peers, which had hash `k`.
pub open spec fn frame_for_hash<P, T: NotifyTarget<P>>(
    kept: Seq<(u64, bytes::Bytes)>,
    senders: Seq<T>,
    upto: int,
    method: &str,
    params: &P,
    k: u64,
    b: bytes::Bytes,
) -> bool {
    ||| exists|m: int|
        #![trigger kept[m]]
        0 <= m < kept.len() && kept[m].0 == k && bytes_view(kept[m].1) == bytes_view(b)
    ||| exists|j: int, b0: bytes::Bytes|
        #![trigger call_ensures(T::encode_notify, (&senders[j], method, params), Ok::<bytes::Bytes, SendError>(b0))]
        0 <= j < upto && call_ensures(T::notification_encoder_hash, (&senders[j],), Some(k))
            && call_ensures(
            T::encode_notify,
            (&senders[j], method, params),
            Ok::<bytes::Bytes, SendError>(b0),
        ) && bytes_view(b0) == bytes_view(b)
}

/// A failed outcome `res` for peer `t` was handed to `on_error`.
pub open spec fn failure_reported<T, G: Fn(&T, SendError)>(on_error: G, t: &T, res: Result<(), SendError>) -> bool {
    res matches Err(e) ==> call_ensures(on_error, (t, e), ())
}

/// What a broadcast did for peer `i` of `senders`: it asked the peer for its
/// encoder hash; without one the peer encoded and queued the notification
/// itself; with hash `k` the peer was handed a frame for `k` (see
/// [`frame_for_hash`]), or its own encoding failed. Every failure went to
/// `on_error`.
pub open spec fn delivered<P, T: NotifyTarget<P>, G: Fn(&T, SendError)>(
    kept: Seq<(u64, bytes::Bytes)>,
    senders: Seq<T>,
    i: int,
    method: &str,
    params: &P,
    on_error: G,
) -> bool {
    exists|h: Option<u64>|
        #[trigger] call_ensures(T::notification_encoder_hash, (&senders[i],), h) && match h {
            None => exists|res: Result<(), SendError>|
                #[trigger] call_ensures(T::notify_deferred, (&senders[i], method, params), res)
                    && failure_reported(on_error, &senders[i], res),
            Some(k) => (exists|e: SendError|
                #[trigger] call_ensures(
                    T::encode_notify,
                    (&senders[i], method, params),
                    Err::<bytes::Bytes, SendError>(e),
                ) && call_ensures(on_error, (&senders[i], e), ())) || (exists|
                b: bytes::Bytes,
                res: Result<(), SendError>,
            |
                #[trigger] call_ensures(T::write_bytes_deferred, (&senders[i], b), res)
                    && frame_for_hash(kept, senders, i + 1, method, params, k, b)
                    && failure_reported(on_error, &senders[i], res)),
        }
}

/// After the lookup for peer `idx` of a broadcast, every kept frame is still
/// one that may be handed out, and the lookup's result is the peer's own
/// encoding failure, no frame for a peer without hash, or a frame for its
/// hash.
proof fn lemma_after_lookup<P, T: NotifyTarget<P>, F: FnOnce() -> Result<bytes::Bytes, SendError>>(
    kept: Seq<(u64, bytes::Bytes)>,
    senders: Seq<T>,
    idx: int,
    method: &str,
    params: &P,
    before: Seq<(u64, bytes::Bytes)>,
    after: Seq<(u64, bytes::Bytes)>,
    hash: Option<u64>,
    encode: F,
    r: Result<Option<bytes::Bytes>, SendError>,
)
    requires
        0 <= idx < senders.len(),
        call_ensures(T::notification_encoder_hash, (&senders[idx],), hash),
        forall|m: int|
            0 <= m < before.len() ==> #[trigger] frame_for_hash(
                kept,
                senders,
                idx,
                method,
                params,
                before[m].0,
                before[m].1,
            ),
        lookup_outcome(before, after, hash, encode, r),
        forall|res: Result<bytes::Bytes, SendError>|
            #[trigger] call_ensures(encode, (), res) ==> call_ensures(
                T::encode_notify,
                (&senders[idx], method, params),
                res,
            ),
    ensures
        forall|m: int|
            0 <= m < after.len() ==> #[trigger] frame_for_hash(
                kept,
                senders,
                idx + 1,
                method,
                params,
                after[m].0,
                after[m].1,
            ),
        r matches Ok(None) ==> hash is None,
        r matches Ok(Some(b)) ==> (hash matches Some(k) && frame_for_hash(
            kept,
            senders,
            idx + 1,
            method,
            params,
            k,
            b,
        )),
        r matches Err(e) ==> (hash is Some && call_ensures(
            T::encode_notify,
            (&senders[idx], method, params),
            Err::<bytes::Bytes, SendError>(e),
        )),
{
    assert forall|m: int| 0 <= m < before.len() implies #[trigger] frame_for_hash(
        kept,
        senders,
        idx + 1,
        method,
        params,
        before[m].0,
        before[m].1,
    ) by {
        assert(frame_for_hash(kept, senders, idx, method, params, before[m].0, before[m].1));
    }
    match hash {
        None => {},
        Some(k) => {
            if has_key(before, k) {
                let i = choose|i: int|
                    0 <= i < before.len() && before[i].0 == k && (r matches Ok(Some(b))
                        && bytes_view(b) == bytes_view(before[i].1));
                assert(frame_for_hash(kept, senders, idx + 1, method, params, before[i].0, before[i].1));
            } else {
                let res = choose|res: Result<bytes::Bytes, SendError>|
                    #[trigger] call_ensures(encode, (), res) && match res {
                        Err(e) => r matches Err(e2) && e2 == e && after == before,
                        Ok(b) => (r matches Ok(Some(b2)) && bytes_view(b2) == bytes_view(b))
                            && exists|i: int|
                            0 <= i <= before.len() && after == before.insert(i, (k, b)),
                    };
                assert(call_ensures(T::encode_notify, (&senders[idx], method, params), res));
                match res {
                    Err(e) => {},
                    Ok(b) => {
                        let i = choose|i: int| 0 <= i <= before.len() && after == before.insert(i, (k, b));
                        assert(frame_for_hash(kept, senders, idx + 1, method, params, k, b));
                        assert forall|m: int| 0 <= m < after.len() implies #[trigger] frame_for_hash(
                            kept,
                            senders,
                            idx + 1,
                            method,
                            params,
                            after[m].0,
                            after[m].1,
                        ) by {
                            if m < i {
                                assert(after[m] == before[m]);
                            } else if m == i {
                            } else {
                                assert(after[m] == before[m - 1]);
                                assert(frame_for_hash(kept, senders, idx + 1, method, params, before[m - 1].0, before[m - 1].1));
                            }
                        }
                    },
                }
            }
        },
    }
}

impl Broadcast {
    #[verifier::type_invariant]
    spec fn inv(self) -> bool {
        keys_sorted(self.chunk_lut@)
    }

    pub fn new() -> (r: Broadcast)
        ensures
            r@ == Seq::<(u64, bytes::Bytes)>::empty(),
            keys_sorted(r@),
    {
        Broadcast { chunk_lut: Vec::new() }
    }

    /// Binary search for `k`: its index, or where it would be inserted.
    fn search(&self, k: u64) -> (r: Result<usize, usize>)
        ensures
            r matches Ok(i) ==> i < self@.len() && self@[i as int].0 == k,
            r matches Err(i) ==> i <= self@.len() && (forall|j: int| 0 <= j < i ==> self@[j].0
                < k) && (forall|j: int| i <= j < self@.len() ==> self@[j].0 > k),
    {
        proof {
            use_type_invariant(self);
        }
        let mut lo: usize = 0;
        let mut hi: usize = self.chunk_lut.len();
        while lo < hi
            invariant
                0 <= lo <= hi <= self@.len(),
                keys_sorted(self@),
                forall|j: int| 0 <= j < lo ==> self@[j].0 < k,
                forall|j: int| hi <= j < self@.len() ==> self@[j].0 > k,
            decreases hi - lo,
        {
            let mid = lo + (hi - lo) / 2;
            let key = self.chunk_lut[mid].0;
            if key == k {
                return Ok(mid);
            } else if key < k {
                lo = mid + 1;
            } else {
                hi = mid;
            }
        }
        Err(lo)
    }

    /// The frame for encoder hash `id`: none without a hash; the kept frame
    /// when one was encoded for `id` already; otherwise the frame that
    /// `encode` gives, which is kept in order of hash. A failed encoding is
    /// handed back and nothing is kept.
    pub fn lookup_chunk<E, F: FnOnce() -> Result<bytes::Bytes, E>>(
        &mut self,
        id: Option<u64>,
        encode: F,
    ) -> (r: Result<Option<bytes::Bytes>, E>)
        requires
            call_requires(encode, ()),
        ensures
            keys_sorted(final(self)@),
            lookup_outcome(old(self)@, final(self)@, id, encode, r),
    {
        proof {
            use_type_invariant(&*self);
        }
        let k = match id {
            None => return Ok(None),
            Some(k) => k,
        };
        match self.search(k) {
            Ok(i) => {
                let b = bytes_clone(&self.chunk_lut[i].1);
                Ok(Some(b))
            },
            Err(at) => {
                let res = encode();
                match res {
                    Err(e) => Err(e),
                    Ok(b) => {
                        let copy = bytes_clone(&b);
                        let mut lut: Vec<(u64, bytes::Bytes)> = Vec::new();
                        std::mem::swap(&mut lut, &mut self.chunk_lut);
                        let ghost before = lut@;
                        lut.insert(at, (k, b));
                        assert(keys_sorted(lut@)) by {
                            assert forall|p: int, q: int| 0 <= p < q < lut@.len() implies lut@[p].0
                                < lut@[q].0 by {
                                if q < at {
                                } else if q == at {
                                } else if p < at {
                                } else if p == at {
                                } else {
                                    assert(lut@[p] == before[p - 1]);
                                    assert(lut@[q] == before[q - 1]);
                                }
                            }
                        }
                        self.chunk_lut = lut;
                        Ok(Some(copy))
                    },
                }
            },
        }
    }

    /// Forgets every kept frame.
    pub fn clear(&mut self)
        ensures
            final(self)@ == Seq::<(u64, bytes::Bytes)>::empty(),
    {
        self.chunk_lut = Vec::new();
    }

    /// Broadcasts a notification to every target without waiting: each
    /// target gets the kept frame of its encoder hash, or its own encoding;
    /// every failure is handed to `on_error`. The table is empty afterwards.
    pub fn broadcast_deferred<P, T: NotifyTarget<P>, G: Fn(&T, SendError)>(
        &mut self,
        method: &str,
        params: &P,
        senders: &[T],
        on_error: G,
    )
        requires
            forall|t: &T, e: SendError| call_requires(on_error, (t, e)),
        ensures
            final(self)@ == Seq::<(u64, bytes::Bytes)>::empty(),
            forall|i: int|
                0 <= i < senders@.len() ==> #[trigger] delivered(
                    old(self)@,
                    senders@,
                    i,
                    method,
                    params,
                    on_error,
                ),
    {
        let ghost kept = self@;
        let mut idx: usize = 0;
        while idx < senders.len()
            invariant
                idx <= senders@.len(),
                forall|t: &T, e: SendError| call_requires(on_error, (t, e)),
                forall|m: int|
                    0 <= m < self@.len() ==> #[trigger] frame_for_hash(
                        kept,
                        senders@,
                        idx as int,
                        method,
                        params,
                        self@[m].0,
                        self@[m].1,
                    ),
                forall|i: int|
                    0 <= i < idx ==> #[trigger] delivered(kept, senders@, i, method, params, on_error),
            decreases senders.len() - idx,
        {
            let rpc = &senders[idx];
            let hash = rpc.notification_encoder_hash();
            let ghost table = self@;
            let encode = || -> (r: Result<bytes::Bytes, SendError>)
                ensures
                    call_ensures(T::encode_notify, (rpc, method, params), r),
                { rpc.encode_notify(method, params) };
            let chunk = self.lookup_chunk(hash, encode);
            proof {
                lemma_after_lookup(kept, senders@, idx as int, method, params, table, self@, hash, encode, chunk);
            }
            let ghost frame = chunk;
            let result = match chunk {
                Ok(Some(bytes)) => rpc.write_bytes_deferred(bytes),
                Ok(None) => rpc.notify_deferred(method, params),
                Err(e) => Err(e),
            };
            if let Err(err) = result {
                on_error(rpc, err);
            }
            proof {
                assert(call_ensures(T::notification_encoder_hash, (&senders@[idx as int],), hash));
                match frame {
                    Ok(Some(b)) => {
                        assert(call_ensures(T::write_bytes_deferred, (&senders@[idx as int], b), result));
                    },
                    Ok(None) => {
                        assert(call_ensures(T::notify_deferred, (&senders@[idx as int], method, params), result));
                    },
                    Err(e) => {
                        assert(call_ensures(
                            T::encode_notify,
                            (&senders@[idx as int], method, params),
                            Err::<bytes::Bytes, SendError>(e),
                        ));
                    },
                }
                assert(delivered(kept, senders@, idx as int, method, params, on_error));
            }
            idx = idx + 1;
        }
        self.clear();
    }
}

} // verus!
