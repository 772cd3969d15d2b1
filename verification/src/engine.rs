//! The protocol engine, as far as the adapter drives it.
//!
//! Everything in this file is believed, not proved: the engine's types are
//! opaque, and each function below wraps one call into `sctp-proto` (or the
//! clock) and hands back plain values that the verified code can read.

use vstd::prelude::*;

verus! {

#[verifier::external_type_specification]
#[verifier::external_body]
pub struct ExEndpoint(sctp_proto::Endpoint);

#[verifier::external_type_specification]
#[verifier::external_body]
pub struct ExAssociation(sctp_proto::Association);

#[verifier::external_type_specification]
#[verifier::external_body]
pub struct ExAssociationEvent(sctp_proto::AssociationEvent);

#[verifier::external_type_specification]
#[verifier::external_body]
pub struct ExEndpointEvent(sctp_proto::EndpointEvent);

#[verifier::external_type_specification]
#[verifier::external_body]
pub struct ExConnectError(sctp_proto::ConnectError);

#[verifier::external_type_specification]
#[verifier::external_body]
pub struct ExInstant(std::time::Instant);

/// The payload of one outbound transmit.
pub enum Outbound {
    /// Encoded datagrams, ready for the wire.
    Raw(Vec<Vec<u8>>),
    /// Any other representation; not ready to be sent.
    Other,
}

/// One application-facing event of the association, reduced to what the
/// adapter reads.
pub enum EngineEvent {
    Connected,
    AssociationLost,
    Readable(u16),
    Writable(u16),
    Stopped(u16),
    Finished(u16),
    /// An event that the adapter does not report.
    Other,
}

/// Where the endpoint routed one inbound datagram.
pub enum Routed {
    /// The datagram was not actionable.
    Nowhere,
    /// The datagram started a new association, registered under this handle.
    NewAssociation(usize, sctp_proto::Association),
    /// The datagram belongs to the association registered under this handle.
    ToAssociation(usize, sctp_proto::AssociationEvent),
}

/// Where the endpoint routes a datagram, without what it hands over with it.
#[derive(Debug, Clone, Copy, PartialEq, Eq, Structural)]
pub enum Route {
    /// The datagram is not actionable.
    Nowhere,
    /// The datagram starts a new association, registered under this handle.
    NewAssociation(usize),
    /// The datagram belongs to the association registered under this handle.
    ToAssociation(usize),
}

/// The route that was taken, without the association or the event that came
/// with it.
pub open spec fn route_taken(r: Routed) -> Route {
    match r {
        Routed::Nowhere => Route::Nowhere,
        Routed::NewAssociation(h, _) => Route::NewAssociation(h),
        Routed::ToAssociation(h, _) => Route::ToAssociation(h),
    }
}

/// How the engine answered a request to open a stream.
#[derive(Debug, Clone, Copy, PartialEq, Eq, Structural)]
pub enum OpenOutcome {
    Opened,
    AlreadyExists,
    Failed,
}

/// How the engine answered a call on one of its streams.
#[derive(Debug, Clone, Copy, PartialEq, Eq, Structural)]
pub enum StreamCall {
    Done,
    /// The engine has no stream with that id.
    NoStream,
    Failed,
}

/// What a destructive read of one stream gave.
pub enum ReadOutcome {
    /// One reassembled message: payload-protocol identifier and bytes.
    Message(u32, Vec<u8>),
    /// No stream with that id, or no complete message on it.
    Nothing,
    /// The engine reported an error.
    Failed,
}

/// Whether the endpoint holds a server configuration, without which it cannot
/// take a datagram that asks for a new association.
pub uninterp spec fn endpoint_serves(e: sctp_proto::Endpoint) -> bool;

/// Whether the endpoint holds so many associations that it starts no more.
pub uninterp spec fn endpoint_full(e: sctp_proto::Endpoint) -> bool;

/// Where the endpoint routes the datagram `data`: decided by the datagram's
/// header and first chunk and by the associations that the endpoint has
/// registered.
pub uninterp spec fn route_of(e: sctp_proto::Endpoint, data: Seq<u8>) -> Route;

/// Whether the endpoint still has an association registered under `h`.
pub uninterp spec fn endpoint_knows(e: sctp_proto::Endpoint, h: usize) -> bool;

/// The payloads of the transmits queued in the endpoint, oldest first.
pub uninterp spec fn endpoint_queue(e: sctp_proto::Endpoint) -> Seq<Outbound>;

/// The association after it was asked what it has to send at `now`.
pub uninterp spec fn after_transmit(a: sctp_proto::Association, now: std::time::Instant) -> sctp_proto::Association;

/// Whether the association has anything to send at `now`.
pub uninterp spec fn has_outbound(a: sctp_proto::Association, now: std::time::Instant) -> bool;

/// The application event that the association hands out next, if one is due.
pub uninterp spec fn event_answer(a: sctp_proto::Association) -> Option<EngineEvent>;

/// The association after the event that was due next was taken out of it.
pub uninterp spec fn event_taken(a: sctp_proto::Association) -> sctp_proto::Association;

/// Whether the association has a stream `id` that is open for reading.
pub uninterp spec fn stream_readable(a: sctp_proto::Association, id: u16) -> bool;

/// The association after a read of stream `id`.
pub uninterp spec fn after_read(a: sctp_proto::Association, id: u16) -> sctp_proto::Association;

/// What a read of stream `id` gives.
pub uninterp spec fn read_answer(a: sctp_proto::Association, id: u16) -> ReadOutcome;

/// Whether the association has not completed its handshake yet.
pub uninterp spec fn assoc_handshaking(a: sctp_proto::Association) -> bool;

/// Whether the association is closed.
pub uninterp spec fn assoc_closed(a: sctp_proto::Association) -> bool;

/// What the association answers to a request to open stream `id`.
pub uninterp spec fn open_answer(a: sctp_proto::Association, id: u16) -> OpenOutcome;

/// What the association answers where `data` is written to stream `id` under
/// the payload-protocol identifier `ppi`.
pub uninterp spec fn write_answer(a: sctp_proto::Association, id: u16, ppi: u32, data: Seq<u8>) -> StreamCall;

/// What the association answers where both directions of stream `id` are
/// closed.
pub uninterp spec fn close_answer(a: sctp_proto::Association, id: u16) -> StreamCall;

/// The instant at which the association next wants its timers handled.
pub uninterp spec fn deadline_of(a: sctp_proto::Association) -> Option<std::time::Instant>;

/// The association after it acted on the timers that have expired at `now`.
pub uninterp spec fn after_timeout(a: sctp_proto::Association, now: std::time::Instant) -> sctp_proto::Association;

/// The time from `now` to `deadline`, zero where `deadline` is past.
pub uninterp spec fn span_between(deadline: std::time::Instant, now: std::time::Instant) -> std::time::Duration;

/// The whole milliseconds in `d`.
pub uninterp spec fn millis_in(d: std::time::Duration) -> u128;

/// The number of application events that the association still owes,
/// a pending handshake error included.
pub uninterp spec fn event_backlog(a: sctp_proto::Association) -> nat;

/// The number of endpoint events queued in the association.
pub uninterp spec fn endpoint_event_backlog(a: sctp_proto::Association) -> nat;

/// `Instant::now`: the current reading of the monotonic clock. Nothing is
/// claimed of it.
#[verifier::external_body]
pub(crate) fn clock_now() -> (now: std::time::Instant) {
    std::time::Instant::now()
}

/// `Instant::eq`: two instants compare equal exactly when they are the same
/// point in time.
#[verifier::external_body]
pub(crate) fn same_instant(a: &std::time::Instant, b: &std::time::Instant) -> (same: bool)
    ensures
        same == (*a == *b),
{
    a.eq(b)
}

/// `Instant::duration_since`: the time from `now` to `deadline`, zero where
/// `deadline` is past.
#[verifier::external_body]
pub(crate) fn time_until(deadline: &std::time::Instant, now: &std::time::Instant) -> (d:
    std::time::Duration)
    ensures
        d == span_between(*deadline, *now),
{
    deadline.duration_since(*now)
}

/// `Duration::as_millis`: the whole milliseconds in `d`.
#[verifier::external_body]
pub(crate) fn whole_millis(d: &std::time::Duration) -> (ms: u128)
    ensures
        ms == millis_in(*d),
{
    d.as_millis()
}

/// `Endpoint::new` with a default endpoint configuration and a default server
/// configuration, so that inbound associations are accepted. The new endpoint
/// holds that server configuration and no association, so it is not full.
#[verifier::external_body]
pub(crate) fn endpoint_new() -> (e: sctp_proto::Endpoint)
    ensures
        endpoint_serves(e),
        !endpoint_full(e),
{
    let config = std::sync::Arc::new(sctp_proto::EndpointConfig::new());
    let server = std::sync::Arc::new(sctp_proto::ServerConfig::new());
    sctp_proto::Endpoint::new(config, Some(server))
}

/// `Endpoint::connect` with the default client configuration, towards the
/// IPv4 address `a.b.c.d` and `port`. It is refused, before anything changes,
/// exactly where the endpoint is full or `port` is zero; otherwise the
/// endpoint has registered the new association under the handle it returns.
/// No association registered before is forgotten, and the server
/// configuration stays.
#[verifier::external_body]
pub(crate) fn endpoint_connect(
    e: &mut sctp_proto::Endpoint,
    a: u8,
    b: u8,
    c: u8,
    d: u8,
    port: u16,
) -> (r: Result<(usize, sctp_proto::Association), sctp_proto::ConnectError>)
    ensures
        r is Err <==> endpoint_full(*old(e)) || port == 0,
        r is Err ==> *final(e) == *old(e),
        endpoint_serves(*final(e)) == endpoint_serves(*old(e)),
        r matches Ok(pair) ==> endpoint_knows(*final(e), pair.0),
        forall|g: usize| #[trigger]
            endpoint_knows(*old(e), g) ==> endpoint_knows(*final(e), g),
{
    let ip = core::net::IpAddr::V4(core::net::Ipv4Addr::new(a, b, c, d));
    let peer = core::net::SocketAddr::new(ip, port);
    e.connect(sctp_proto::ClientConfig::default(), peer).map(|(h, assoc)| (h.0, assoc))
}

/// `Endpoint::handle`: routes one inbound datagram, said to come from the
/// IPv4 address `a.b.c.d` and `port`, with no local address and no congestion
/// mark. The route it takes is the one that the endpoint, as it was, has for
/// these bytes; an association that it starts is registered under the handle
/// that comes with it. No association registered
/// before is forgotten, and the server configuration stays. The endpoint must
/// hold a server configuration.
#[verifier::external_body]
pub(crate) fn endpoint_handle(
    e: &mut sctp_proto::Endpoint,
    now: std::time::Instant,
    a: u8,
    b: u8,
    c: u8,
    d: u8,
    port: u16,
    data: &[u8],
) -> (r: Routed)
    requires
        endpoint_serves(*old(e)),
    ensures
        route_taken(r) == route_of(*old(e), data@),
        endpoint_serves(*final(e)),
        r matches Routed::NewAssociation(h, _) ==> endpoint_knows(*final(e), h),
        forall|g: usize| #[trigger]
            endpoint_knows(*old(e), g) ==> endpoint_knows(*final(e), g),
{
    let ip = core::net::IpAddr::V4(core::net::Ipv4Addr::new(a, b, c, d));
    let from = core::net::SocketAddr::new(ip, port);
    match e.handle(now, from, None, None, bytes::Bytes::copy_from_slice(data)) {
        None => Routed::Nowhere,
        Some((h, sctp_proto::DatagramEvent::NewAssociation(assoc))) => Routed::NewAssociation(h.0, assoc),
        Some((h, sctp_proto::DatagramEvent::AssociationEvent(ev))) => Routed::ToAssociation(h.0, ev),
    }
}

/// `Endpoint::handle_event`: hands the endpoint an event of the association
/// that it has registered under `h`. The only such event says that the
/// association is drained: the endpoint forgets it, so nothing is claimed of
/// the handles it knows afterwards, and it never answers with an event. The
/// server configuration stays.
#[verifier::external_body]
pub(crate) fn endpoint_handle_event(
    e: &mut sctp_proto::Endpoint,
    h: usize,
    ev: sctp_proto::EndpointEvent,
) -> (r: Option<sctp_proto::AssociationEvent>)
    requires
        endpoint_knows(*old(e), h),
    ensures
        r is None,
        endpoint_serves(*final(e)) == endpoint_serves(*old(e)),
{
    e.handle_event(sctp_proto::AssociationHandle(h), ev)
}

/// `Endpoint::poll_transmit`: takes the oldest queued transmit and leaves the
/// others queued in their order; where none is queued there is none to take
/// and the endpoint is left as it was. The registered associations and the
/// server configuration stay as they are.
#[verifier::external_body]
pub(crate) fn endpoint_poll_transmit(e: &mut sctp_proto::Endpoint) -> (r: Option<Outbound>)
    ensures
        endpoint_queue(*old(e)).len() > 0 ==> r == Some(endpoint_queue(*old(e))[0])
            && endpoint_queue(*final(e)) == endpoint_queue(*old(e)).skip(1),
        endpoint_queue(*old(e)).len() == 0 ==> r is None && *final(e) == *old(e),
        endpoint_serves(*final(e)) == endpoint_serves(*old(e)),
        forall|g: usize| #[trigger]
            endpoint_knows(*old(e), g) ==> endpoint_knows(*final(e), g),
{
    match e.poll_transmit() {
        None => None,
        Some(t) => match t.payload {
            sctp_proto::Payload::RawEncode(raw) => Some(Outbound::Raw(raw.iter().map(|b| b.to_vec()).collect())),
            _ => Some(Outbound::Other),
        },
    }
}

/// `Association::poll_transmit`: gathers what the association has to send at
/// `now`. Whether there is anything, and what the association is afterwards,
/// follow from the association and `now`; of the bytes nothing is claimed.
/// What it returns is always in encoded form and holds at least one datagram.
#[verifier::external_body]
pub(crate) fn assoc_poll_transmit(
    a: &mut sctp_proto::Association,
    now: std::time::Instant,
) -> (r: Option<Outbound>)
    ensures
        r is Some == has_outbound(*old(a), now),
        *final(a) == after_transmit(*old(a), now),
        r matches Some(out) ==> out is Raw,
        r matches Some(Outbound::Raw(datagrams)) ==> datagrams@.len() > 0,
{
    match a.poll_transmit(now) {
        None => None,
        Some(t) => match t.payload {
            sctp_proto::Payload::RawEncode(raw) => Some(Outbound::Raw(raw.iter().map(|b| b.to_vec()).collect())),
            _ => Some(Outbound::Other),
        },
    }
}

/// `Association::poll`: takes the application event that is due next out of
/// the association, so that it owes one fewer afterwards. Which event that is
/// and what the association is afterwards follow from the association alone;
/// where none is due the association is left as it was.
#[verifier::external_body]
pub(crate) fn assoc_poll_event(a: &mut sctp_proto::Association) -> (r: Option<EngineEvent>)
    ensures
        r == event_answer(*old(a)),
        r is Some ==> event_backlog(*final(a)) + 1 == event_backlog(*old(a)),
        r is Some ==> *final(a) == event_taken(*old(a)),
        r is None ==> *final(a) == *old(a),
{
    a.poll().map(|ev| match ev {
        sctp_proto::Event::Connected => EngineEvent::Connected,
        sctp_proto::Event::AssociationLost { .. } => EngineEvent::AssociationLost,
        sctp_proto::Event::Stream(sctp_proto::StreamEvent::Readable { id }) => EngineEvent::Readable(id),
        sctp_proto::Event::Stream(sctp_proto::StreamEvent::Writable { id }) => EngineEvent::Writable(id),
        sctp_proto::Event::Stream(sctp_proto::StreamEvent::Stopped { id, .. }) => EngineEvent::Stopped(id),
        sctp_proto::Event::Stream(sctp_proto::StreamEvent::Finished { id }) => EngineEvent::Finished(id),
        _ => EngineEvent::Other,
    })
}

/// `Association::poll_endpoint_event`: takes the oldest queued endpoint
/// event, so that one fewer is queued afterwards; there is none to take only
/// where none is queued, and the association is then left as it was.
#[verifier::external_body]
pub(crate) fn assoc_poll_endpoint_event(a: &mut sctp_proto::Association) -> (r: Option<
    sctp_proto::EndpointEvent,
>)
    ensures
        r is Some ==> endpoint_event_backlog(*final(a)) + 1 == endpoint_event_backlog(*old(a)),
        r is None ==> endpoint_event_backlog(*final(a)) == 0 && endpoint_event_backlog(*old(a))
            == 0 && *final(a) == *old(a),
{
    a.poll_endpoint_event()
}

/// `Association::handle_event`: feeds the association one event from its
/// endpoint. Nothing is claimed of the effect: in its handshake the
/// association draws a random cookie.
#[verifier::external_body]
pub(crate) fn assoc_handle_event(a: &mut sctp_proto::Association, ev: sctp_proto::AssociationEvent) {
    a.handle_event(ev)
}

/// `Association::handle_timeout`: lets the association act on the timers that
/// have expired at `now`. What the association is afterwards follows from what
/// it was and from `now`.
#[verifier::external_body]
pub(crate) fn assoc_handle_timeout(a: &mut sctp_proto::Association, now: std::time::Instant)
    ensures
        *final(a) == after_timeout(*old(a), now),
{
    a.handle_timeout(now)
}

/// `Association::poll_timeout`: the next instant at which the association
/// wants its timers handled, if any.
#[verifier::external_body]
pub(crate) fn assoc_poll_timeout(a: &sctp_proto::Association) -> (r: Option<std::time::Instant>)
    ensures
        r == deadline_of(*a),
{
    a.poll_timeout()
}

/// `Association::is_handshaking`: whether the handshake is still to be
/// completed.
#[verifier::external_body]
pub(crate) fn assoc_is_handshaking(a: &sctp_proto::Association) -> (r: bool)
    ensures
        r == assoc_handshaking(*a),
{
    a.is_handshaking()
}

/// `Association::is_closed`: whether the association is closed.
#[verifier::external_body]
pub(crate) fn assoc_is_closed(a: &sctp_proto::Association) -> (r: bool)
    ensures
        r == assoc_closed(*a),
{
    a.is_closed()
}

/// `Association::open_stream` with an unknown default payload type. The
/// engine's "already exists" error is told apart from its other errors. The
/// answer follows from the association and the id. Whatever the answer, the
/// call touches neither the handshake nor the association's state.
#[verifier::external_body]
pub(crate) fn assoc_open_stream(a: &mut sctp_proto::Association, id: u16) -> (r: OpenOutcome)
    ensures
        r == open_answer(*old(a), id),
        assoc_handshaking(*final(a)) == assoc_handshaking(*old(a)),
        assoc_closed(*final(a)) == assoc_closed(*old(a)),
{
    match a.open_stream(id, sctp_proto::PayloadProtocolIdentifier::Unknown) {
        Ok(_) => OpenOutcome::Opened,
        Err(sctp_proto::Error::ErrStreamAlreadyExist) => OpenOutcome::AlreadyExists,
        Err(_) => OpenOutcome::Failed,
    }
}

/// `Association::stream`, then `Stream::close`: closes the write direction of
/// stream `id` and then its read direction. The answer follows from the
/// association and the id.
#[verifier::external_body]
pub(crate) fn stream_close(a: &mut sctp_proto::Association, id: u16) -> (r: StreamCall)
    ensures
        r == close_answer(*old(a), id),
{
    match a.stream(id) {
        Err(_) => StreamCall::NoStream,
        Ok(mut s) => match s.close() {
            Ok(_) => StreamCall::Done,
            Err(_) => StreamCall::Failed,
        },
    }
}

/// `Association::stream`, then `Stream::write_sctp`: queues `data` on stream
/// `id` under the payload-protocol identifier `ppi`. The answer follows from
/// the association and what is written.
#[verifier::external_body]
pub(crate) fn stream_write(a: &mut sctp_proto::Association, id: u16, ppi: u32, data: &[u8]) -> (r:
    StreamCall)
    ensures
        r == write_answer(*old(a), id, ppi, data@),
{
    match a.stream(id) {
        Err(_) => StreamCall::NoStream,
        Ok(mut s) => match s.write_sctp(&bytes::Bytes::copy_from_slice(data), ppi.into()) {
            Ok(_) => StreamCall::Done,
            Err(_) => StreamCall::Failed,
        },
    }
}

/// `Association::stream`, then `Stream::is_readable`: whether the association
/// has a stream `id` that is open for reading. The association is left as it
/// was.
#[verifier::external_body]
pub(crate) fn stream_is_readable(a: &mut sctp_proto::Association, id: u16) -> (r: bool)
    ensures
        r == stream_readable(*old(a), id),
        *final(a) == *old(a),
{
    match a.stream(id) {
        Ok(s) => s.is_readable(),
        Err(_) => false,
    }
}

/// `Association::stream`, `Stream::read` and `Chunks::read`: takes the next
/// reassembled message out of stream `id`, if one is complete. The answer,
/// and what the association is afterwards, follow from the association and
/// the id. Where the engine has no such stream, or the stream no complete
/// message, the association is left as it was.
#[verifier::external_body]
pub(crate) fn stream_read(a: &mut sctp_proto::Association, id: u16) -> (r: ReadOutcome)
    ensures
        r == read_answer(*old(a), id),
        *final(a) == after_read(*old(a), id),
        r is Nothing ==> *final(a) == *old(a),
{
    let Ok(mut s) = a.stream(id) else { return ReadOutcome::Nothing };
    let chunks = match s.read() {
        Ok(Some(chunks)) => chunks,
        Ok(None) => return ReadOutcome::Nothing,
        Err(_) => return ReadOutcome::Failed,
    };
    let mut bytes = vec![0u8; chunks.len()];
    match chunks.read(&mut bytes) {
        Ok(_) => ReadOutcome::Message(chunks.ppi as u32, bytes),
        Err(_) => ReadOutcome::Failed,
    }
}

} // verus!
