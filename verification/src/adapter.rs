//! The adapter: one endpoint, at most one association, the registry of open
//! streams and the deadline that was reported last.

use vstd::prelude::*;
use crate::engine::{
    assoc_closed, assoc_handle_event, assoc_handle_timeout, assoc_handshaking, assoc_is_closed,
    assoc_is_handshaking,
    assoc_open_stream, assoc_poll_endpoint_event, assoc_poll_event, assoc_poll_timeout,
    assoc_poll_transmit, clock_now, endpoint_connect, endpoint_event_backlog,
    after_read, after_timeout, after_transmit, close_answer, deadline_of, endpoint_full, endpoint_handle,
    endpoint_handle_event, endpoint_knows, endpoint_new, endpoint_poll_transmit, endpoint_queue,
    endpoint_serves, event_answer, event_backlog, has_outbound, millis_in, open_answer, read_answer, route_of,
    route_taken, span_between, stream_close, stream_is_readable, stream_read, stream_readable,
    stream_write, time_until, event_taken,
    whole_millis, write_answer, EngineEvent, OpenOutcome, Outbound, ReadOutcome,
    Route, Routed, StreamCall,
};
use crate::event::{ConnectFailed, Event, Inbound, StreamError};
use crate::registry::{registered, unregistered, StreamRegistry};
use crate::translate::{
    apply_engine_event, call_result, call_result_of, close_result, close_result_of, data_event,
    data_of, deadline_changed, deadline_step, held_after, inbound_of, open_result_of, reported,
    settle_open, streams_after, timeout_event, transmit_event, transmit_of,
};

verus! {

/// Every octet of the IPv4 address under which the one peer is known to the
/// engine. The adapter carries no real addresses: transport is the host's.
pub const PEER_OCTET: u8 = 1;

/// The port under which the one peer is known to the engine.
pub const PEER_PORT: u16 = 5000;

/// An association together with the handle under which the endpoint
/// registered it.
struct Link {
    handle: usize,
    assoc: sctp_proto::Association,
    /// Cleared once the endpoint was told that the association is drained:
    /// from then on the handle means nothing to the endpoint.
    registered: bool,
}

/// The state of one adapter.
pub struct Adapter {
    endpoint: sctp_proto::Endpoint,
    link: Option<Link>,
    streams: StreamRegistry,
    last_deadline: Option<std::time::Instant>,
}

/// The registry after a poll that returned `r`.
pub open spec fn streams_after_poll(s: Seq<u16>, r: Event) -> Seq<u16> {
    match r {
        Event::StreamOpened(id) => registered(s, id),
        Event::StreamClosed(id) => unregistered(s, id),
        _ => s,
    }
}

/// What one call of `open_stream(id)` may do: `pre` is the adapter before it,
/// `post` the adapter after it, `r` what it returns.
pub open spec fn opens(pre: Adapter, id: u16, post: Adapter, r: Result<(), StreamError>) -> bool {
    &&& post.wf()
    &&& post.held() == pre.held()
    &&& post.usable() == pre.usable()
    &&& post.last_deadline() == pre.last_deadline()
    &&& pre.usable() ==> pre.connected()
    &&& (r == Err::<(), StreamError>(StreamError::NotConnected)) == !pre.usable()
    &&& !pre.usable() ==> post == pre
    &&& pre.usable() && pre.open_streams().contains(id) ==> post == pre && r == Err::<
        (),
        StreamError,
    >(StreamError::AlreadyExists)
    &&& pre.usable() && !pre.open_streams().contains(id) ==> r == open_result_of(
        pre.engine_open(id),
    )
    &&& r is Ok ==> !pre.open_streams().contains(id) && post.open_streams()
        == pre.open_streams().push(id) && post.open_streams().contains(id)
    &&& r is Err ==> post.open_streams() == pre.open_streams()
    &&& r matches Err(e) ==> e == StreamError::NotConnected || e == StreamError::AlreadyExists || e
        == StreamError::UnableToCreate
}

/// What one call of `close_stream(id)` may do.
pub open spec fn closes(pre: Adapter, id: u16, post: Adapter, r: Result<(), StreamError>) -> bool {
    &&& post.wf()
    &&& post.held() == pre.held()
    &&& post.last_deadline() == pre.last_deadline()
    &&& (r == Err::<(), StreamError>(StreamError::NotConnected)) == !pre.connected()
    &&& (r == Err::<(), StreamError>(StreamError::InvalidId)) == (pre.connected()
        && !pre.open_streams().contains(id))
    &&& !pre.connected() || !pre.open_streams().contains(id) ==> post == pre
    &&& pre.connected() && pre.open_streams().contains(id) ==> r == close_result_of(
        pre.engine_close(id),
    )
    &&& post.open_streams() == (if pre.connected() {
        unregistered(pre.open_streams(), id)
    } else {
        pre.open_streams()
    })
    &&& pre.connected() ==> !post.open_streams().contains(id)
    &&& r is Ok ==> pre.open_streams().contains(id)
}

/// The place of the first encoded payload in `q`, or the length of `q` where
/// it holds none.
pub open spec fn first_raw(q: Seq<Outbound>) -> int
    decreases q.len(),
{
    if q.len() == 0 {
        0
    } else if q[0] is Raw {
        0
    } else {
        1 + first_raw(q.skip(1))
    }
}

/// The milliseconds that remain from `now` to the deadline `d`, if there is
/// one.
pub open spec fn remaining_of(d: Option<std::time::Instant>, now: std::time::Instant) -> Option<
    u128,
> {
    match d {
        Some(t) => Some(millis_in(span_between(t, now))),
        None => None,
    }
}

/// What does not change while one class of a poll is served.
pub open spec fn keeps_bookkeeping(pre: Adapter, post: Adapter) -> bool {
    &&& post.wf()
    &&& post.held() == pre.held()
    &&& post.open_streams() == pre.open_streams()
    &&& post.last_deadline() == pre.last_deadline()
}

/// The first class: the endpoint's queue is taken up to its first encoded
/// payload, which is returned; without one the queue is emptied and the next
/// class is due.
pub open spec fn serves_endpoint(pre: Adapter, post: Adapter, o: Option<Event>) -> bool {
    let q = pre.endpoint_waiting();
    let i = first_raw(q);
    &&& keeps_bookkeeping(pre, post)
    &&& Adapter::same_association(pre, post)
    &&& if 0 <= i < q.len() {
        o == transmit_of(q[i]) && o is Some && post.endpoint_waiting() == q.skip(i + 1)
    } else {
        o is None && post.endpoint_waiting().len() == 0
    }
}

/// The second class: what the association has to send at `now` is returned;
/// where it has nothing the next class is due.
pub open spec fn serves_outbound(
    pre: Adapter,
    now: std::time::Instant,
    post: Adapter,
    o: Option<Event>,
) -> bool {
    &&& keeps_bookkeeping(pre, post)
    &&& Adapter::same_endpoint(pre, post)
    &&& !pre.connected() ==> post == pre
    &&& o is Some == pre.engine_sends(now)
    &&& o matches Some(ev) ==> ev is Transmit
    &&& o matches Some(Event::Transmit(datagrams)) ==> datagrams@.len() > 0
    &&& pre.engine_association() matches Some(a) ==> post.engine_association() == Some(
        after_transmit(a, now),
    )
}

/// The third class: the association's events are taken until one is to be
/// reported, which is applied to the registry and returned; where the
/// association has none left the next class is due.
pub open spec fn serves_events(pre: Adapter, post: Adapter, o: Option<Event>) -> bool {
    &&& post.wf()
    &&& post.last_deadline() == pre.last_deadline()
    &&& Adapter::same_endpoint(pre, post)
    &&& !pre.connected() ==> post == pre
    &&& match o {
        Some(ev) => {
            &&& ev is Connected || ev is Disconnected || ev is StreamOpened || ev is StreamClosed
            &&& post.open_streams() == streams_after_poll(pre.open_streams(), ev)
            &&& if ev is Disconnected {
                post.held() is None
            } else {
                post.held() == pre.held()
            }
        },
        None => {
            &&& post.open_streams() == pre.open_streams()
            &&& post.held() == pre.held()
            &&& post.engine_event() is None
        },
    }
    &&& pre.engine_event() is None ==> o is None && post == pre
    &&& pre.engine_association() matches Some(a) ==> {
        let (found, after) = next_report(a, event_backlog(a));
        &&& o == reported_of(found)
        &&& post.open_streams() == registry_after(pre.open_streams(), found)
        &&& post.engine_association() == (if found == Some(EngineEvent::AssociationLost) {
            None
        } else {
            Some(after)
        })
    }
}

/// The first event to be reported among those that the association hands out
/// one after another, starting from `a`, and the association after that event
/// was taken; where the run ends without one, nothing, and the association
/// after all of them were taken. At most `n + 1` events are taken.
pub open spec fn next_report(a: sctp_proto::Association, n: nat) -> (
    Option<EngineEvent>,
    sctp_proto::Association,
)
    decreases n,
{
    match event_answer(a) {
        None => (None, a),
        Some(e) => if reported(e) is Some {
            (Some(e), event_taken(a))
        } else if n == 0 {
            (None, event_taken(a))
        } else {
            next_report(event_taken(a), (n - 1) as nat)
        },
    }
}

/// What the host is told of the event found, if one was found.
pub open spec fn reported_of(found: Option<EngineEvent>) -> Option<Event> {
    match found {
        Some(e) => reported(e),
        None => None,
    }
}

/// The registry after the event found, if one was found.
pub open spec fn registry_after(s: Seq<u16>, found: Option<EngineEvent>) -> Seq<u16> {
    match found {
        Some(e) => streams_after(s, e),
        None => s,
    }
}

/// The fourth class: the registered streams that are open for reading are
/// read in registration order, and the first message found is returned; where
/// none has one the next class is due. A stream whose read fails is passed
/// over.
pub open spec fn serves_data(pre: Adapter, post: Adapter, o: Option<Event>) -> bool {
    let ids = pre.open_streams();
    &&& keeps_bookkeeping(pre, post)
    &&& Adapter::same_endpoint(pre, post)
    &&& !pre.connected() ==> o is None && post == pre
    &&& pre.engine_association() matches Some(a) ==> {
        let (found, after) = next_message(a, ids, 0);
        o == found && post.engine_association() == Some(after)
    }
    &&& o matches Some(ev) ==> (ev matches Event::Data(id, _, _) && ids.contains(id))
}

/// The first message that the streams `ids`, from place `k` on and in their
/// order, give on the association `a`, as a data event, and the association
/// after the reads that led to it; where none gives one, nothing, and the
/// association after all the reads.
pub open spec fn next_message(a: sctp_proto::Association, ids: Seq<u16>, k: int) -> (
    Option<Event>,
    sctp_proto::Association,
)
    decreases ids.len() - k,
{
    if k < 0 || k >= ids.len() {
        (None, a)
    } else if !stream_readable(a, ids[k]) {
        next_message(a, ids, k + 1)
    } else {
        match read_answer(a, ids[k]) {
            ReadOutcome::Message(ppi, bytes) => (
                Some(Event::Data(ids[k], ppi, bytes)),
                after_read(a, ids[k]),
            ),
            _ => next_message(after_read(a, ids[k]), ids, k + 1),
        }
    }
}

/// The fifth class: the engine's deadline is remembered, and reported where it
/// differs from the one remembered before.
pub open spec fn serves_deadline(
    pre: Adapter,
    now: std::time::Instant,
    post: Adapter,
    o: Option<Event>,
) -> bool {
    let d = pre.engine_deadline();
    &&& post.wf()
    &&& post.held() == pre.held()
    &&& post.open_streams() == pre.open_streams()
    &&& Adapter::same_endpoint(pre, post)
    &&& Adapter::same_association(pre, post)
    &&& if pre.connected() {
        &&& post.last_deadline() == deadline_step(pre.last_deadline(), d).0
        &&& o == (if deadline_step(pre.last_deadline(), d).1 {
            Some(Event::Timeout(remaining_of(d, now)))
        } else {
            None
        })
    } else {
        o is None && post == pre
    }
}

/// One poll as the five classes in their order: each class is served on the
/// adapter as the classes before it left it, and only where they all returned
/// nothing. `s1` to `s4` are the adapter after each of the first four classes,
/// `o1` to `o5` what each class returned.
pub open spec fn poll_trace(
    pre: Adapter,
    now: std::time::Instant,
    s1: Adapter,
    o1: Option<Event>,
    s2: Adapter,
    o2: Option<Event>,
    s3: Adapter,
    o3: Option<Event>,
    s4: Adapter,
    o4: Option<Event>,
    o5: Option<Event>,
    post: Adapter,
    r: Event,
) -> bool {
    &&& serves_endpoint(pre, s1, o1)
    &&& o1 matches Some(ev) ==> r == ev && post == s1
    &&& o1 is None ==> {
        &&& serves_outbound(s1, now, s2, o2)
        &&& o2 matches Some(ev) ==> r == ev && post == s2
        &&& o2 is None ==> {
            &&& serves_events(s2, s3, o3)
            &&& o3 matches Some(ev) ==> r == ev && post == s3
            &&& o3 is None ==> {
                &&& serves_data(s3, s4, o4)
                &&& o4 matches Some(ev) ==> r == ev && post == s4
                &&& o4 is None ==> {
                    &&& serves_deadline(s4, now, post, o5)
                    &&& o5 matches Some(ev) ==> r == ev
                    &&& o5 is None ==> r == Event::Idle
                }
            }
        }
    }
}

/// What one call of `poll` may do.
pub open spec fn polls(pre: Adapter, post: Adapter, r: Event) -> bool {
    &&& post.wf()
    &&& !pre.connected() ==> r == Event::Idle && post == pre
    &&& post.connected() == (pre.connected() && !(r is Disconnected))
    &&& r is Disconnected || post.held() == pre.held()
    &&& post.open_streams() == streams_after_poll(pre.open_streams(), r)
    &&& (r is Timeout) == (post.last_deadline() != pre.last_deadline())
    &&& r matches Event::Timeout(remaining) ==> (remaining is Some) == (post.last_deadline() is Some)
    &&& pre.connected() && (r is Timeout || r is Idle) ==> post.last_deadline()
        == post.engine_deadline()
    &&& r matches Event::Data(id, _, _) ==> pre.open_streams().contains(id)
    &&& pre.connected() && !(r is Transmit) ==> post.endpoint_pending() == 0
    &&& pre.connected() ==> exists|
        now: std::time::Instant,
        s1: Adapter,
        o1: Option<Event>,
        s2: Adapter,
        o2: Option<Event>,
        s3: Adapter,
        o3: Option<Event>,
        s4: Adapter,
        o4: Option<Event>,
        o5: Option<Event>,
    | #[trigger] poll_trace(pre, now, s1, o1, s2, o2, s3, o3, s4, o4, o5, post, r)
}

impl Adapter {
    /// The handle of the association that the adapter holds, if it holds one.
    pub closed spec fn held(&self) -> Option<usize> {
        match self.link {
            Some(link) => Some(link.handle),
            None => None,
        }
    }

    /// Whether the adapter holds an association.
    pub open spec fn connected(&self) -> bool {
        self.held() is Some
    }

    /// The association that the adapter holds, as the engine has it now.
    pub closed spec fn engine_association(&self) -> Option<sctp_proto::Association> {
        match self.link {
            Some(link) => Some(link.assoc),
            None => None,
        }
    }

    /// The endpoint, as the engine has it now.
    pub closed spec fn engine_endpoint(&self) -> sctp_proto::Endpoint {
        self.endpoint
    }

    /// The adapter holds a handle exactly where it holds an association.
    pub proof fn lemma_held_with_association(self)
        ensures
            self.held() is Some <==> self.engine_association() is Some,
    {
    }

    /// What the engine answers to a request to open stream `id` on the
    /// association that the adapter holds.
    pub open spec fn engine_open(&self, id: u16) -> OpenOutcome {
        match self.engine_association() {
            Some(a) => open_answer(a, id),
            None => OpenOutcome::Failed,
        }
    }

    /// What the engine answers where `data` is written to stream `id`.
    pub open spec fn engine_write(&self, id: u16, ppi: u32, data: Seq<u8>) -> StreamCall {
        match self.engine_association() {
            Some(a) => write_answer(a, id, ppi, data),
            None => StreamCall::NoStream,
        }
    }

    /// What the engine answers where stream `id` is closed.
    pub open spec fn engine_close(&self, id: u16) -> StreamCall {
        match self.engine_association() {
            Some(a) => close_answer(a, id),
            None => StreamCall::NoStream,
        }
    }

    /// The deadline that the association has now.
    pub open spec fn engine_deadline(&self) -> Option<std::time::Instant> {
        match self.engine_association() {
            Some(a) => deadline_of(a),
            None => None,
        }
    }

    /// Whether `post` holds the association of `pre` after it acted on the
    /// timers that have expired at `now`, as far as that queued no event for
    /// the endpoint.
    pub open spec fn timed_out(pre: Adapter, now: std::time::Instant, post: Adapter) -> bool {
        match (pre.engine_association(), post.engine_association()) {
            (Some(a), Some(b)) => endpoint_event_backlog(after_timeout(a, now)) == 0 ==> b
                == after_timeout(a, now),
            _ => false,
        }
    }

    /// Whether the endpoint is too full to start another association.
    pub open spec fn endpoint_is_full(&self) -> bool {
        endpoint_full(self.engine_endpoint())
    }

    /// Where the endpoint, as it is, routes the datagram `data`.
    pub open spec fn route(&self, data: Seq<u8>) -> Route {
        route_of(self.engine_endpoint(), data)
    }

    /// Whether the endpoint has an association registered under `h`.
    pub open spec fn knows(&self, h: usize) -> bool {
        endpoint_knows(self.engine_endpoint(), h)
    }

    /// Whether the adapter holds an association that has completed its
    /// handshake and is not closed.
    pub open spec fn usable(&self) -> bool {
        self.engine_association() matches Some(a) && !assoc_handshaking(a) && !assoc_closed(a)
    }

    /// The streams that the adapter believes open, in registration order.
    pub closed spec fn open_streams(&self) -> Seq<u16> {
        self.streams@
    }

    /// The payloads that wait in the endpoint, oldest first.
    pub open spec fn endpoint_waiting(&self) -> Seq<Outbound> {
        endpoint_queue(self.engine_endpoint())
    }

    /// The number of transmits that wait in the endpoint.
    pub open spec fn endpoint_pending(&self) -> nat {
        self.endpoint_waiting().len()
    }

    /// Whether the association that the adapter holds has anything to send
    /// at `now`.
    pub open spec fn engine_sends(&self, now: std::time::Instant) -> bool {
        match self.engine_association() {
            Some(a) => has_outbound(a, now),
            None => false,
        }
    }

    /// The event that the association that the adapter holds hands out next.
    pub open spec fn engine_event(&self) -> Option<EngineEvent> {
        match self.engine_association() {
            Some(a) => event_answer(a),
            None => None,
        }
    }

    /// Whether both hold the same association, in the same state.
    pub open spec fn same_association(pre: Adapter, post: Adapter) -> bool {
        pre.engine_association() == post.engine_association() && pre.held() == post.held()
    }

    /// Whether both hold the same endpoint, in the same state.
    pub open spec fn same_endpoint(pre: Adapter, post: Adapter) -> bool {
        pre.engine_endpoint() == post.engine_endpoint()
    }

    /// The number of events for the endpoint that wait in the association.
    pub open spec fn endpoint_events_pending(&self) -> nat {
        match self.engine_association() {
            Some(a) => endpoint_event_backlog(a),
            None => 0,
        }
    }

    /// The deadline of the most recent timeout event, if there was one.
    pub closed spec fn last_deadline(&self) -> Option<std::time::Instant> {
        self.last_deadline
    }

    /// The endpoint accepts inbound associations, and the handle of the
    /// association is one that the endpoint knows, unless the endpoint was
    /// told to forget it.
    pub closed spec fn engine_valid(&self) -> bool {
        &&& endpoint_serves(self.endpoint)
        &&& self.link matches Some(link) ==> (link.registered ==> endpoint_knows(
            self.endpoint,
            link.handle,
        ))
    }

    /// No stream is registered twice, and the engine's parts fit together.
    pub open spec fn wf(&self) -> bool {
        self.open_streams().no_duplicates() && self.engine_valid()
    }

    /// A new adapter: a fresh endpoint that accepts inbound associations, no
    /// association, no stream, no deadline reported.
    pub fn new() -> (a: Self)
        ensures
            a.wf(),
            !a.connected(),
            !a.endpoint_is_full(),
            a.open_streams() == Seq::<u16>::empty(),
            a.last_deadline() is None,
    {
        Adapter {
            endpoint: endpoint_new(),
            link: None,
            streams: StreamRegistry::new(),
            last_deadline: None,
        }
    }

    /// Whether the adapter holds an association.
    pub fn is_connected(&self) -> (b: bool)
        ensures
            b == self.connected(),
    {
        self.link.is_some()
    }

    /// The streams that the adapter believes open, in registration order.
    pub fn stream_ids(&self) -> (v: Vec<u16>)
        ensures
            v@ == self.open_streams(),
    {
        self.streams.ids()
    }

    /// Starts an outbound association towards the peer. It fails exactly
    /// where the endpoint is full, and then nothing changes: the engine is out
    /// of room, which the adapter cannot mend, so the caller must treat the
    /// error as fatal and abort. Otherwise the
    /// adapter holds the new association in place of any it held before; the
    /// registry and the remembered deadline stay.
    pub fn connect(&mut self) -> (r: Result<(), ConnectFailed>)
        requires
            old(self).wf(),
        ensures
            final(self).wf(),
            r is Err <==> old(self).endpoint_is_full(),
            r is Ok ==> final(self).connected(),
            r is Err ==> *final(self) == *old(self),
            final(self).open_streams() == old(self).open_streams(),
            final(self).last_deadline() == old(self).last_deadline(),
    {
        match endpoint_connect(
            &mut self.endpoint,
            PEER_OCTET,
            PEER_OCTET,
            PEER_OCTET,
            PEER_OCTET,
            PEER_PORT,
        ) {
            Ok((handle, assoc)) => {
                self.link = Some(Link { handle, assoc, registered: true });
                Ok(())
            },
            Err(_) => Err(ConnectFailed),
        }
    }

    /// Opens stream `id`.
    ///
    /// Without an association, or with one that is still in its handshake or
    /// closed, the answer is `NotConnected`, and in no other case. An id that
    /// is registered already is refused with `AlreadyExists` before the engine
    /// is asked. Otherwise the engine decides, and the id is registered
    /// exactly on success.
    pub fn open_stream(&mut self, id: u16) -> (r: Result<(), StreamError>)
        requires
            old(self).wf(),
        ensures
            opens(*old(self), id, *final(self), r),
    {
        let link = match self.link.take() {
            None => {
                return Err(StreamError::NotConnected);
            },
            Some(link) => link,
        };
        let Link { handle, assoc, registered } = link;
        let mut assoc = assoc;
        if assoc_is_handshaking(&assoc) || assoc_is_closed(&assoc) {
            self.link = Some(Link { handle, assoc, registered });
            return Err(StreamError::NotConnected);
        }
        if self.streams.contains(id) {
            self.link = Some(Link { handle, assoc, registered });
            return Err(StreamError::AlreadyExists);
        }
        let outcome = assoc_open_stream(&mut assoc, id);
        self.link = Some(Link { handle, assoc, registered });
        let r = settle_open(&mut self.streams, id, outcome);
        proof {
            if r is Ok {
                assert(self.streams@[self.streams@.len() - 1] == id);
            }
        }
        r
    }

    /// Closes stream `id`.
    ///
    /// Without an association the answer is `NotConnected`; for an id that is
    /// not registered it is `InvalidId`, and in both cases nothing changes,
    /// the engine included. Otherwise the id leaves the registry first, and
    /// stays out whatever the engine then answers to the two-phase shutdown:
    /// `Ok` where both phases succeed, `UnableToStop` where the engine lacks
    /// the stream or a phase fails.
    pub fn close_stream(&mut self, id: u16) -> (r: Result<(), StreamError>)
        requires
            old(self).wf(),
        ensures
            closes(*old(self), id, *final(self), r),
    {
        let link = match self.link.take() {
            None => {
                return Err(StreamError::NotConnected);
            },
            Some(link) => link,
        };
        if !self.streams.unregister(id) {
            self.link = Some(link);
            return Err(StreamError::InvalidId);
        }
        let Link { handle, assoc, registered } = link;
        let mut assoc = assoc;
        let closed = stream_close(&mut assoc, id);
        self.link = Some(Link { handle, assoc, registered });
        close_result(closed)
    }

    /// Writes `data` to stream `id` under the payload-protocol identifier
    /// `ppi`. The engine says whether the stream exists: the registry is
    /// neither asked nor changed.
    pub fn send(&mut self, id: u16, ppi: u32, data: &[u8]) -> (r: Result<(), StreamError>)
        requires
            old(self).wf(),
        ensures
            final(self).wf(),
            final(self).held() == old(self).held(),
            final(self).open_streams() == old(self).open_streams(),
            final(self).last_deadline() == old(self).last_deadline(),
            !old(self).connected() ==> r == Err::<(), StreamError>(StreamError::NotConnected)
                && *final(self) == *old(self),
            old(self).connected() ==> r == call_result_of(
                old(self).engine_write(id, ppi, data@),
                StreamError::UnableToSend,
            ),
    {
        let link = match self.link.take() {
            None => {
                return Err(StreamError::NotConnected);
            },
            Some(link) => link,
        };
        let Link { handle, assoc, registered } = link;
        let mut assoc = assoc;
        let written = stream_write(&mut assoc, id, ppi, data);
        self.link = Some(Link { handle, assoc, registered });
        call_result(written, StreamError::UnableToSend)
    }

    /// Feeds one inbound datagram to the endpoint and settles where the
    /// endpoint routed it.
    ///
    /// A datagram that starts an association is accepted only while the
    /// adapter holds none; one that the endpoint routes to the association
    /// that the adapter holds is forwarded to it; one that is not actionable
    /// is ignored; any other is rejected. The registry and the remembered
    /// deadline never change.
    pub fn handle_data(&mut self, data: &[u8]) -> (r: Inbound)
        requires
            old(self).wf(),
        ensures
            final(self).wf(),
            r == inbound_of(old(self).route(data@), old(self).held()),
            final(self).held() == held_after(old(self).route(data@), old(self).held()),
            final(self).open_streams() == old(self).open_streams(),
            final(self).last_deadline() == old(self).last_deadline(),
            r == Inbound::Ignored || r == Inbound::Rejected ==> Adapter::same_association(
                *old(self),
                *final(self),
            ),
    {
        let now = clock_now();
        let routed = endpoint_handle(
            &mut self.endpoint,
            now,
            PEER_OCTET,
            PEER_OCTET,
            PEER_OCTET,
            PEER_OCTET,
            PEER_PORT,
            data,
        );
        self.take_routed(routed)
    }

    /// Settles a datagram that the endpoint has routed: adopts the new
    /// association where the adapter holds none, hands the event to the
    /// association where it is the one that the adapter holds, and drops
    /// whatever else came.
    pub fn take_routed(&mut self, routed: Routed) -> (r: Inbound)
        requires
            old(self).wf(),
            routed matches Routed::NewAssociation(h, _) ==> old(self).knows(h),
        ensures
            final(self).wf(),
            r == inbound_of(route_taken(routed), old(self).held()),
            final(self).held() == held_after(route_taken(routed), old(self).held()),
            final(self).open_streams() == old(self).open_streams(),
            final(self).last_deadline() == old(self).last_deadline(),
            final(self).endpoint_is_full() == old(self).endpoint_is_full(),
            r == Inbound::Ignored || r == Inbound::Rejected ==> *final(self) == *old(self),
    {
        match routed {
            Routed::Nowhere => Inbound::Ignored,
            Routed::NewAssociation(handle, assoc) => {
                if self.link.is_some() {
                    Inbound::Rejected
                } else {
                    self.link = Some(Link { handle, assoc, registered: true });
                    Inbound::Accepted
                }
            },
            Routed::ToAssociation(target, ev) => {
                match self.link.take() {
                    None => Inbound::Rejected,
                    Some(link) => {
                        if link.handle != target {
                            self.link = Some(link);
                            return Inbound::Rejected;
                        }
                        let Link { handle, assoc, registered } = link;
                        let mut assoc = assoc;
                        assoc_handle_event(&mut assoc, ev);
                        self.link = Some(Link { handle, assoc, registered });
                        Inbound::Forwarded
                    },
                }
            },
        }
    }

    /// Lets the association act on its expired timers, then takes every
    /// endpoint event that it queued, until none is left, and hands it to the
    /// endpoint as long as the endpoint still knows the association. Without
    /// an association the answer is `NotConnected` and nothing changes.
    pub fn handle_timeout(&mut self) -> (r: Result<(), StreamError>)
        requires
            old(self).wf(),
        ensures
            final(self).wf(),
            final(self).held() == old(self).held(),
            final(self).open_streams() == old(self).open_streams(),
            final(self).last_deadline() == old(self).last_deadline(),
            !old(self).connected() ==> r == Err::<(), StreamError>(StreamError::NotConnected)
                && *final(self) == *old(self),
            old(self).connected() ==> r is Ok,
            old(self).connected() ==> exists|now: std::time::Instant| #[trigger]
                Adapter::timed_out(*old(self), now, *final(self)),
            final(self).endpoint_events_pending() == 0,
    {
        let link = match self.link.take() {
            None => {
                return Err(StreamError::NotConnected);
            },
            Some(link) => link,
        };
        let Link { handle, assoc, registered } = link;
        let mut assoc = assoc;
        let now = clock_now();
        assoc_handle_timeout(&mut assoc, now);
        let ghost advanced = assoc;
        let mut registered = registered;
        loop
            invariant
                self.link is None,
                old(self).link is Some,
                endpoint_event_backlog(advanced) == 0 ==> assoc == advanced,
                self.streams == old(self).streams,
                self.last_deadline == old(self).last_deadline,
                registered ==> endpoint_knows(self.endpoint, handle),
                endpoint_serves(self.endpoint),
            ensures
                endpoint_event_backlog(assoc) == 0,
            decreases endpoint_event_backlog(assoc),
        {
            match assoc_poll_endpoint_event(&mut assoc) {
                None => {
                    break ;
                },
                Some(ev) => {
                    // The only event there is tells the endpoint to forget
                    // the association; it must not be told twice.
                    if registered {
                        registered = false;
                        match endpoint_handle_event(&mut self.endpoint, handle, ev) {
                            Some(answer) => {
                                assoc_handle_event(&mut assoc, answer);
                            },
                            None => {},
                        }
                    }
                },
            }
        }
        self.link = Some(Link { handle, assoc, registered });
        assert(Adapter::timed_out(*old(self), now, *self));
        Ok(())
    }

    /// Returns the one event that is due, by class in this order: datagrams of
    /// the endpoint, datagrams of the association, events of the association,
    /// inbound data of the registered streams in registration order, a change
    /// of the deadline. A class is asked only where those before it had
    /// nothing, and on the adapter as they left it. `Idle` where none has
    /// anything, and where the adapter holds no association.
    pub fn poll(&mut self) -> (r: Event)
        requires
            old(self).wf(),
        ensures
            polls(*old(self), *final(self), r),
    {
        if self.link.is_none() {
            return Event::Idle;
        }
        let now = clock_now();
        let o1 = self.poll_endpoint();
        let ghost s1 = *self;
        if let Some(ev) = o1 {
            assert(poll_trace(*old(self), now, s1, o1, s1, o1, s1, o1, s1, o1, o1, *self, ev));
            return ev;
        }
        let o2 = self.poll_outbound(&now);
        let ghost s2 = *self;
        if let Some(ev) = o2 {
            assert(poll_trace(*old(self), now, s1, o1, s2, o2, s2, o2, s2, o2, o2, *self, ev));
            return ev;
        }
        let o3 = self.poll_events();
        let ghost s3 = *self;
        if let Some(ev) = o3 {
            assert(poll_trace(*old(self), now, s1, o1, s2, o2, s3, o3, s3, o3, o3, *self, ev));
            return ev;
        }
        let o4 = self.poll_data();
        let ghost s4 = *self;
        if let Some(ev) = o4 {
            assert(poll_trace(*old(self), now, s1, o1, s2, o2, s3, o3, s4, o4, o4, *self, ev));
            return ev;
        }
        let o5 = self.poll_deadline(&now);
        let r = match o5 {
            Some(ev) => ev,
            None => Event::Idle,
        };
        assert(poll_trace(*old(self), now, s1, o1, s2, o2, s3, o3, s4, o4, o5, *self, r));
        r
    }

    /// Serves the first class of a poll: takes the endpoint's transmits until
    /// one holds encoded datagrams, and returns those.
    pub fn poll_endpoint(&mut self) -> (o: Option<Event>)
        requires
            old(self).wf(),
        ensures
            serves_endpoint(*old(self), *final(self), o),
    {
        let ghost q = endpoint_queue(self.endpoint);
        let ghost mut k: int = 0;
        assert(q.skip(0) == q);
        loop
            invariant
                self.link == old(self).link,
                self.streams == old(self).streams,
                self.last_deadline == old(self).last_deadline,
                old(self).wf(),
                self.engine_valid(),
                q == endpoint_queue(old(self).endpoint),
                0 <= k <= q.len(),
                endpoint_queue(self.endpoint) == q.skip(k),
                first_raw(q) == k + first_raw(q.skip(k)),
            ensures
                k == q.len(),
                first_raw(q) == q.len(),
                endpoint_queue(self.endpoint).len() == 0,
            decreases q.len() - k,
        {
            match endpoint_poll_transmit(&mut self.endpoint) {
                None => {
                    break ;
                },
                Some(out) => {
                    assert(out == q[k]);
                    assert(q.skip(k).skip(1) == q.skip(k + 1));
                    if let Some(ev) = transmit_event(out) {
                        return Some(ev);
                    }
                    proof {
                        k = k + 1;
                    }
                },
            }
        }
        None
    }

    /// Serves the second class of a poll: returns what the association has to
    /// send at `now`, and nothing exactly where it has nothing to send.
    pub fn poll_outbound(&mut self, now: &std::time::Instant) -> (o: Option<Event>)
        requires
            old(self).wf(),
        ensures
            serves_outbound(*old(self), *now, *final(self), o),
    {
        let link = match self.link.take() {
            None => {
                return None;
            },
            Some(link) => link,
        };
        let Link { handle, assoc, registered } = link;
        let mut assoc = assoc;
        // What the association gathers is always encoded: there is nothing
        // to skip, so one call settles this class.
        let sent = assoc_poll_transmit(&mut assoc, *now);
        self.link = Some(Link { handle, assoc, registered });
        match sent {
            Some(out) => transmit_event(out),
            None => None,
        }
    }

    /// Serves the third class of a poll: takes the association's events until
    /// one is to be reported, applies it to the registry and returns it. A
    /// lost association is given up as it is reported.
    pub fn poll_events(&mut self) -> (o: Option<Event>)
        requires
            old(self).wf(),
        ensures
            serves_events(*old(self), *final(self), o),
    {
        let link = match self.link.take() {
            None => {
                return None;
            },
            Some(link) => link,
        };
        let Link { handle, assoc, registered } = link;
        let mut assoc = assoc;
        let ghost first = assoc;
        loop
            invariant
                self.link is None,
                old(self).link == Some(Link { handle, assoc: first, registered }),
                old(self).wf(),
                self.endpoint == old(self).endpoint,
                self.streams == old(self).streams,
                self.last_deadline == old(self).last_deadline,
                event_answer(first) is None ==> assoc == first,
                next_report(first, event_backlog(first)) == next_report(
                    assoc,
                    event_backlog(assoc),
                ),
            ensures
                event_answer(assoc) is None,
                event_answer(first) is None ==> assoc == first,
                next_report(first, event_backlog(first)) == (None::<EngineEvent>, assoc),
            decreases event_backlog(assoc),
        {
            let ghost before = assoc;
            match assoc_poll_event(&mut assoc) {
                None => {
                    break ;
                },
                Some(engine_event) => {
                    match apply_engine_event(&mut self.streams, engine_event) {
                        Some(Event::Disconnected) => {
                            return Some(Event::Disconnected);
                        },
                        Some(ev) => {
                            self.link = Some(Link { handle, assoc, registered });
                            return Some(ev);
                        },
                        None => {
                            assert(next_report(before, event_backlog(before)) == next_report(
                                assoc,
                                event_backlog(assoc),
                            ));
                        },
                    }
                },
            }
        }
        self.link = Some(Link { handle, assoc, registered });
        None
    }

    /// Serves the fourth class of a poll: reads the registered streams that
    /// are open for reading, in registration order, and returns the first
    /// message found.
    pub fn poll_data(&mut self) -> (o: Option<Event>)
        requires
            old(self).wf(),
        ensures
            serves_data(*old(self), *final(self), o),
    {
        let link = match self.link.take() {
            None => {
                return None;
            },
            Some(link) => link,
        };
        let Link { handle, assoc, registered } = link;
        let mut assoc = assoc;
        let ghost first = assoc;
        let ghost ids = self.streams@;
        let n = self.streams.len();
        let mut i: usize = 0;
        while i < n
            invariant
                i <= n,
                n == ids.len(),
                ids == self.streams@,
                self.link is None,
                old(self).link == Some(Link { handle, assoc: first, registered }),
                old(self).wf(),
                self.endpoint == old(self).endpoint,
                self.streams == old(self).streams,
                self.last_deadline == old(self).last_deadline,
                next_message(first, ids, 0) == next_message(assoc, ids, i as int),
            decreases n - i,
        {
            let id = self.streams.get(i);
            assert(ids[i as int] == id);
            if stream_is_readable(&mut assoc, id) {
                let read = stream_read(&mut assoc, id);
                if let Some(ev) = data_event(id, read) {
                    self.link = Some(Link { handle, assoc, registered });
                    return Some(ev);
                }
            }
            i += 1;
        }
        self.link = Some(Link { handle, assoc, registered });
        None
    }

    /// Serves the fifth class of a poll: remembers the engine's deadline and
    /// reports it, in milliseconds from `now`, where it differs from the one
    /// remembered before.
    pub fn poll_deadline(&mut self, now: &std::time::Instant) -> (o: Option<Event>)
        requires
            old(self).wf(),
        ensures
            serves_deadline(*old(self), *now, *final(self), o),
    {
        let current = match &self.link {
            None => {
                return None;
            },
            Some(link) => assoc_poll_timeout(&link.assoc),
        };
        if !deadline_changed(&self.last_deadline, &current) {
            return None;
        }
        self.last_deadline = current;
        let remaining = match current {
            Some(deadline) => {
                let left = time_until(&deadline, now);
                Some(whole_millis(&left))
            },
            None => None,
        };
        Some(timeout_event(remaining))
    }

    /// Datagrams go first: a poll of a connected adapter returns something
    /// other than a transmit only where the endpoint's queue holds no encoded
    /// payload and the association has nothing to send at the time of the
    /// poll.
    pub proof fn lemma_transmit_goes_first(pre: Adapter, post: Adapter, r: Event)
        requires
            polls(pre, post, r),
            pre.connected(),
            !(r is Transmit),
        ensures
            first_raw(pre.endpoint_waiting()) == pre.endpoint_waiting().len(),
            exists|now: std::time::Instant| !#[trigger] pre.engine_sends(now),
    {
        let (now, s1, o1, s2, o2, s3, o3, s4, o4, o5) = choose|
            now: std::time::Instant,
            s1: Adapter,
            o1: Option<Event>,
            s2: Adapter,
            o2: Option<Event>,
            s3: Adapter,
            o3: Option<Event>,
            s4: Adapter,
            o4: Option<Event>,
            o5: Option<Event>,
        | #[trigger] poll_trace(pre, now, s1, o1, s2, o2, s3, o3, s4, o4, o5, post, r);
        Self::lemma_first_raw_bounds(pre.endpoint_waiting());
        assert(o1 is None);
        assert(o2 is None);
        assert(!pre.engine_sends(now));
    }

    /// A deadline is reported once: of two deadline checks in a row, with
    /// nothing done to the adapter in between, the second reports nothing and
    /// remembers what the first remembered.
    pub proof fn lemma_deadline_reported_once(
        s0: Adapter,
        now0: std::time::Instant,
        s1: Adapter,
        o1: Option<Event>,
        now1: std::time::Instant,
        s2: Adapter,
        o2: Option<Event>,
    )
        requires
            serves_deadline(s0, now0, s1, o1),
            serves_deadline(s1, now1, s2, o2),
        ensures
            o2 is None,
            s2.last_deadline() == s1.last_deadline(),
    {
    }

    /// The first encoded payload lies within the queue or at its end.
    proof fn lemma_first_raw_bounds(q: Seq<Outbound>)
        ensures
            0 <= first_raw(q) <= q.len(),
        decreases q.len(),
    {
        if q.len() > 0 && !(q[0] is Raw) {
            Self::lemma_first_raw_bounds(q.skip(1));
        }
    }
}

} // verus!
