//! What holds of several calls on one adapter in a row, proved from what each
//! call promises.

use vstd::prelude::*;
use crate::adapter::{
    closes, first_raw, next_message, next_report, opens, poll_trace, polls, serves_data,
    serves_events, Adapter,
};
use crate::engine::{
    after_read, after_transmit, deadline_of, event_answer, event_backlog, event_taken,
    has_outbound, read_answer, stream_readable, EngineEvent, ReadOutcome,
};
use crate::event::{Event, StreamError};
use crate::translate::reported;
use crate::registry::{lemma_occurrences, occurrences};

verus! {

/// An id that was just opened cannot be opened again: the second call answers
/// `AlreadyExists` and changes nothing, so the registry keeps its size.
pub proof fn lemma_open_twice_is_refused(
    s0: Adapter,
    id: u16,
    s1: Adapter,
    s2: Adapter,
    r2: Result<(), StreamError>,
)
    requires
        opens(s0, id, s1, Ok(())),
        opens(s1, id, s2, r2),
    ensures
        r2 == Err::<(), StreamError>(StreamError::AlreadyExists),
        s2 == s1,
        s2.open_streams().len() == s1.open_streams().len(),
{
}

/// Opening some id, whatever comes of it, neither takes a registered id out
/// nor makes the association unusable: a registered id is still refused with
/// `AlreadyExists` afterwards.
pub proof fn lemma_registered_id_stays_refused(
    s0: Adapter,
    other: u16,
    s1: Adapter,
    r1: Result<(), StreamError>,
    id: u16,
    s2: Adapter,
    r2: Result<(), StreamError>,
)
    requires
        s0.usable(),
        s0.open_streams().contains(id),
        opens(s0, other, s1, r1),
        opens(s1, id, s2, r2),
    ensures
        s1.open_streams().contains(id),
        r2 == Err::<(), StreamError>(StreamError::AlreadyExists),
        s2 == s1,
{
    let s = s0.open_streams();
    let i = choose|i: int| 0 <= i < s.len() && s[i] == id;
    if r1 is Ok {
        assert(s.push(other)[i] == id);
    }
}

/// After `open_stream(id)` succeeded, `id` is registered exactly once.
pub proof fn lemma_opened_id_occurs_once(s0: Adapter, id: u16, s1: Adapter)
    requires
        opens(s0, id, s1, Ok(())),
    ensures
        s1.open_streams().contains(id),
        occurrences(s1.open_streams(), id) == 1,
{
    lemma_occurrences(s1.open_streams(), id);
}

/// After `close_stream(id)` succeeded, `id` is not registered.
pub proof fn lemma_closed_id_is_absent(s0: Adapter, id: u16, s1: Adapter)
    requires
        closes(s0, id, s1, Ok(())),
    ensures
        !s1.open_streams().contains(id),
        occurrences(s1.open_streams(), id) == 0,
{
    lemma_occurrences(s1.open_streams(), id);
}

/// Closing an id that is not registered fails and changes nothing, the
/// engine's state included: with `InvalidId` where the adapter holds an
/// association, with `NotConnected` where it holds none.
pub proof fn lemma_close_of_unknown_id_changes_nothing(
    s0: Adapter,
    id: u16,
    s1: Adapter,
    r: Result<(), StreamError>,
)
    requires
        !s0.open_streams().contains(id),
        closes(s0, id, s1, r),
    ensures
        s1 == s0,
        s0.connected() ==> r == Err::<(), StreamError>(StreamError::InvalidId),
        !s0.connected() ==> r == Err::<(), StreamError>(StreamError::NotConnected),
{
}

/// Of two polls in a row that both report a timeout, the second reports a
/// deadline other than the one that the first left remembered.
pub proof fn lemma_timeouts_in_a_row_differ(
    s0: Adapter,
    s1: Adapter,
    r1: Event,
    s2: Adapter,
    r2: Event,
)
    requires
        polls(s0, s1, r1),
        polls(s1, s2, r2),
        r2 is Timeout,
    ensures
        s2.last_deadline() != s1.last_deadline(),
{
}

/// A poll that reports nothing leaves the registry, the remembered deadline
/// and the association where they were.
pub proof fn lemma_idle_poll_keeps_bookkeeping(s0: Adapter, s1: Adapter)
    requires
        polls(s0, s1, Event::Idle),
    ensures
        s1.open_streams() == s0.open_streams(),
        s1.last_deadline() == s0.last_deadline(),
        s1.connected() == s0.connected(),
{
}

/// Where the first registered stream is open for reading and has a message,
/// the data class returns that message and no other, and the association is
/// then the one that the read left.
pub proof fn lemma_first_stream_message_is_returned(
    pre: Adapter,
    post: Adapter,
    o: Option<Event>,
    a: sctp_proto::Association,
    ppi: u32,
    bytes: Vec<u8>,
)
    requires
        serves_data(pre, post, o),
        pre.engine_association() == Some(a),
        pre.open_streams().len() > 0,
        stream_readable(a, pre.open_streams()[0]),
        read_answer(a, pre.open_streams()[0]) == ReadOutcome::Message(ppi, bytes),
    ensures
        o == Some(Event::Data(pre.open_streams()[0], ppi, bytes)),
        post.engine_association() == Some(after_read(a, pre.open_streams()[0])),
{
}

/// An event that the adapter does not report is passed over: where the
/// association hands out such an event and then one that is reported, the
/// event class returns the second.
pub proof fn lemma_ignored_event_is_passed_over(
    pre: Adapter,
    post: Adapter,
    o: Option<Event>,
    a: sctp_proto::Association,
    skipped: EngineEvent,
    found: EngineEvent,
)
    requires
        serves_events(pre, post, o),
        pre.engine_association() == Some(a),
        event_backlog(a) >= 1,
        event_answer(a) == Some(skipped),
        reported(skipped) is None,
        event_answer(event_taken(a)) == Some(found),
        reported(found) is Some,
    ensures
        o == reported(found),
{
    assert(next_report(a, event_backlog(a)) == next_report(
        event_taken(a),
        (event_backlog(a) - 1) as nat,
    ));
}

/// A message that waits is returned by the poll: where the endpoint has
/// nothing queued, the association has nothing to send and is not touched by
/// being asked, no event is due, and the first registered stream has a
/// message, the poll returns that message and leaves registry and deadline as
/// they were.
pub proof fn lemma_poll_returns_waiting_message(
    pre: Adapter,
    post: Adapter,
    r: Event,
    a: sctp_proto::Association,
    ppi: u32,
    bytes: Vec<u8>,
)
    requires
        polls(pre, post, r),
        pre.engine_association() == Some(a),
        pre.endpoint_waiting().len() == 0,
        forall|now: std::time::Instant| !#[trigger] has_outbound(a, now) && after_transmit(a, now) == a,
        event_answer(a) is None,
        pre.open_streams().len() > 0,
        stream_readable(a, pre.open_streams()[0]),
        read_answer(a, pre.open_streams()[0]) == ReadOutcome::Message(ppi, bytes),
    ensures
        r == Event::Data(pre.open_streams()[0], ppi, bytes),
        post.open_streams() == pre.open_streams(),
        post.last_deadline() == pre.last_deadline(),
        post.engine_association() == Some(after_read(a, pre.open_streams()[0])),
{
    pre.lemma_held_with_association();
    let (now, s1, o1, s2, o2, s3, o3, s4, o4, o5) = choose|
        now: std::time::Instant,
        s1: Adapter,
        o1: Option<Event>,
        s2: Adapter,
        o2: Option<Event>,
        s3: Adapter,
        o3: Option<Event>,
        s4: Adapter,
        o4: Option<Event>,
        o5: Option<Event>,
    | #[trigger] poll_trace(pre, now, s1, o1, s2, o2, s3, o3, s4, o4, o5, post, r);
    assert(first_raw(pre.endpoint_waiting()) == 0);
    assert(o1 is None);
    assert(!has_outbound(a, now));
    assert(o2 is None);
    assert(s2.engine_association() == Some(a));
    s2.lemma_held_with_association();
    assert(o3 is None);
    assert(s3 == s2);
    assert(next_message(a, s3.open_streams(), 0).0 == Some(
        Event::Data(pre.open_streams()[0], ppi, bytes),
    ));
}

/// A poll that finds nothing pending is idle and changes nothing it keeps
/// book of: where the endpoint has nothing queued, the association has
/// nothing to send and is not touched by being asked, no event is due, no
/// registered stream gives a message, and the engine's deadline is the one
/// remembered, the poll returns `Idle`.
pub proof fn lemma_poll_with_nothing_pending_is_idle(
    pre: Adapter,
    post: Adapter,
    r: Event,
    a: sctp_proto::Association,
)
    requires
        polls(pre, post, r),
        pre.engine_association() == Some(a),
        pre.endpoint_waiting().len() == 0,
        forall|now: std::time::Instant| !#[trigger] has_outbound(a, now) && after_transmit(a, now) == a,
        event_answer(a) is None,
        next_message(a, pre.open_streams(), 0) == (None::<Event>, a),
        deadline_of(a) == pre.last_deadline(),
    ensures
        r == Event::Idle,
        post.open_streams() == pre.open_streams(),
        post.last_deadline() == pre.last_deadline(),
        post.held() == pre.held(),
        post.engine_association() == Some(a),
{
    pre.lemma_held_with_association();
    let (now, s1, o1, s2, o2, s3, o3, s4, o4, o5) = choose|
        now: std::time::Instant,
        s1: Adapter,
        o1: Option<Event>,
        s2: Adapter,
        o2: Option<Event>,
        s3: Adapter,
        o3: Option<Event>,
        s4: Adapter,
        o4: Option<Event>,
        o5: Option<Event>,
    | #[trigger] poll_trace(pre, now, s1, o1, s2, o2, s3, o3, s4, o4, o5, post, r);
    assert(first_raw(pre.endpoint_waiting()) == 0);
    assert(o1 is None);
    assert(!has_outbound(a, now));
    assert(o2 is None);
    assert(s2.engine_association() == Some(a));
    assert(o3 is None);
    assert(s3 == s2);
    assert(o4 is None);
    assert(s4.engine_association() == Some(a));
    assert(o5 is None);
}

} // verus!
