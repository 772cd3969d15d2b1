//! The adapter's decisions, as functions from what the engine answered to what
//! the host is told and how the registry changes.

use vstd::prelude::*;
use crate::engine::{
    same_instant, EngineEvent, OpenOutcome, Outbound, ReadOutcome, Route, StreamCall,
};
use crate::event::{Event, Inbound, StreamError};
use crate::registry::{registered, unregistered, StreamRegistry};

verus! {

/// The event that an outbound payload becomes: only encoded datagrams are
/// forwarded.
pub open spec fn transmit_of(out: Outbound) -> Option<Event> {
    match out {
        Outbound::Raw(datagrams) => Some(Event::Transmit(datagrams)),
        Outbound::Other => None,
    }
}

/// The event that an engine event is reported as, if it is reported at all.
pub open spec fn reported(ev: EngineEvent) -> Option<Event> {
    match ev {
        EngineEvent::Connected => Some(Event::Connected),
        EngineEvent::AssociationLost => Some(Event::Disconnected),
        EngineEvent::Readable(id) => Some(Event::StreamOpened(id)),
        EngineEvent::Writable(id) => Some(Event::StreamOpened(id)),
        EngineEvent::Stopped(id) => Some(Event::StreamClosed(id)),
        EngineEvent::Finished(id) => Some(Event::StreamClosed(id)),
        EngineEvent::Other => None,
    }
}

/// The registry after an engine event: a usable stream is registered, a torn
/// down stream is taken out, and nothing else touches it.
pub open spec fn streams_after(s: Seq<u16>, ev: EngineEvent) -> Seq<u16> {
    match ev {
        EngineEvent::Readable(id) => registered(s, id),
        EngineEvent::Writable(id) => registered(s, id),
        EngineEvent::Stopped(id) => unregistered(s, id),
        EngineEvent::Finished(id) => unregistered(s, id),
        _ => s,
    }
}

/// The event that a read of stream `id` becomes.
pub open spec fn data_of(id: u16, read: ReadOutcome) -> Option<Event> {
    match read {
        ReadOutcome::Message(ppi, bytes) => Some(Event::Data(id, ppi, bytes)),
        _ => None,
    }
}

/// The result of opening a stream, by what the engine answered.
pub open spec fn open_result_of(outcome: OpenOutcome) -> Result<(), StreamError> {
    match outcome {
        OpenOutcome::Opened => Ok(()),
        OpenOutcome::AlreadyExists => Err(StreamError::AlreadyExists),
        OpenOutcome::Failed => Err(StreamError::UnableToCreate),
    }
}

/// The result of a call on a stream: a missing stream is an invalid id, any
/// other failure is `on_failure`.
pub open spec fn call_result_of(call: StreamCall, on_failure: StreamError) -> Result<
    (),
    StreamError,
> {
    match call {
        StreamCall::Done => Ok(()),
        StreamCall::NoStream => Err(StreamError::InvalidId),
        StreamCall::Failed => Err(on_failure),
    }
}

/// The result of closing a stream that was registered: any failure of the
/// engine, a missing stream included, is `UnableToStop`.
pub open spec fn close_result_of(call: StreamCall) -> Result<(), StreamError> {
    match call {
        StreamCall::Done => Ok(()),
        _ => Err(StreamError::UnableToStop),
    }
}

/// What becomes of a datagram that took `route`, where `held` is the handle of
/// the association that the adapter holds: a new association is accepted only
/// where none is held, and an event is forwarded only to the one that is held.
pub open spec fn inbound_of(route: Route, held: Option<usize>) -> Inbound {
    match route {
        Route::Nowhere => Inbound::Ignored,
        Route::NewAssociation(_) => if held is None {
            Inbound::Accepted
        } else {
            Inbound::Rejected
        },
        Route::ToAssociation(h) => if held == Some(h) {
            Inbound::Forwarded
        } else {
            Inbound::Rejected
        },
    }
}

/// The handle that the adapter holds after a datagram took `route`.
pub open spec fn held_after(route: Route, held: Option<usize>) -> Option<usize> {
    match route {
        Route::NewAssociation(h) => if held is None {
            Some(h)
        } else {
            held
        },
        _ => held,
    }
}

/// What one poll does with a deadline: the deadline it remembers afterwards,
/// and whether it reports a timeout.
pub open spec fn deadline_step<T>(last: Option<T>, current: Option<T>) -> (Option<T>, bool) {
    (current, last != current)
}

/// Turns one outbound payload into the event for the host.
pub fn transmit_event(out: Outbound) -> (r: Option<Event>)
    ensures
        r == transmit_of(out),
{
    match out {
        Outbound::Raw(datagrams) => Some(Event::Transmit(datagrams)),
        Outbound::Other => None,
    }
}

/// Applies one engine event to the registry and says what the host is told.
pub fn apply_engine_event(streams: &mut StreamRegistry, ev: EngineEvent) -> (r: Option<Event>)
    requires
        old(streams).wf(),
    ensures
        final(streams).wf(),
        final(streams)@ == streams_after(old(streams)@, ev),
        r == reported(ev),
        streams_after(old(streams)@, ev) == old(streams)@ ==> *final(streams) == *old(streams),
{
    match ev {
        EngineEvent::Connected => Some(Event::Connected),
        EngineEvent::AssociationLost => Some(Event::Disconnected),
        EngineEvent::Readable(id) => {
            streams.register(id);
            Some(Event::StreamOpened(id))
        },
        EngineEvent::Writable(id) => {
            streams.register(id);
            Some(Event::StreamOpened(id))
        },
        EngineEvent::Stopped(id) => {
            streams.unregister(id);
            Some(Event::StreamClosed(id))
        },
        EngineEvent::Finished(id) => {
            streams.unregister(id);
            Some(Event::StreamClosed(id))
        },
        EngineEvent::Other => None,
    }
}

/// Turns what a read of stream `id` gave into the event for the host.
pub fn data_event(id: u16, read: ReadOutcome) -> (r: Option<Event>)
    ensures
        r == data_of(id, read),
{
    match read {
        ReadOutcome::Message(ppi, bytes) => Some(Event::Data(id, ppi, bytes)),
        _ => None,
    }
}

/// Settles a request to open stream `id` once the engine has answered: the
/// id is registered exactly when the engine opened the stream.
pub fn settle_open(streams: &mut StreamRegistry, id: u16, outcome: OpenOutcome) -> (r: Result<
    (),
    StreamError,
>)
    requires
        old(streams).wf(),
    ensures
        final(streams).wf(),
        r == open_result_of(outcome),
        final(streams)@ == (if outcome == OpenOutcome::Opened {
            registered(old(streams)@, id)
        } else {
            old(streams)@
        }),
{
    match outcome {
        OpenOutcome::Opened => {
            streams.register(id);
            Ok(())
        },
        OpenOutcome::AlreadyExists => Err(StreamError::AlreadyExists),
        OpenOutcome::Failed => Err(StreamError::UnableToCreate),
    }
}

/// The result of one call on a stream.
pub fn call_result(call: StreamCall, on_failure: StreamError) -> (r: Result<(), StreamError>)
    ensures
        r == call_result_of(call, on_failure),
{
    match call {
        StreamCall::Done => Ok(()),
        StreamCall::NoStream => Err(StreamError::InvalidId),
        StreamCall::Failed => Err(on_failure),
    }
}

/// The result of closing a stream that was registered.
pub fn close_result(call: StreamCall) -> (r: Result<(), StreamError>)
    ensures
        r == close_result_of(call),
{
    match call {
        StreamCall::Done => Ok(()),
        _ => Err(StreamError::UnableToStop),
    }
}

/// The event for a deadline that changed: the milliseconds that remain, or
/// none where the engine has no deadline any more.
pub fn timeout_event(remaining: Option<u128>) -> (r: Event)
    ensures
        r == Event::Timeout(remaining),
{
    Event::Timeout(remaining)
}

/// Whether the engine's current deadline differs from the one that was
/// reported last.
pub fn deadline_changed(
    last: &Option<std::time::Instant>,
    current: &Option<std::time::Instant>,
) -> (changed: bool)
    ensures
        changed == deadline_step(*last, *current).1,
{
    match (last, current) {
        (None, None) => false,
        (Some(a), Some(b)) => !same_instant(a, b),
        _ => true,
    }
}

/// A deadline is reported only when it differs from the one remembered, and
/// the one remembered afterwards is the current one. So of two polls in a row
/// the second reports a timeout only if the deadline changed in between.
pub proof fn lemma_timeout_reported_on_change_only<T>(
    last: Option<T>,
    first: Option<T>,
    second: Option<T>,
)
    ensures
        deadline_step(last, first).0 == first,
        deadline_step(deadline_step(last, first).0, second).1 == (second != first),
        deadline_step(deadline_step(last, first).0, first).1 == false,
{
}

} // verus!
