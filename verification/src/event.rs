//! The values that cross the adapter's boundary: events handed to the host and
//! the reasons an operation can be refused.

use vstd::prelude::*;

verus! {

/// One discrete event, as returned by a single poll of the adapter.
#[derive(Debug, PartialEq, Eq)]
pub enum Event {
    /// Nothing is pending right now.
    Idle,
    /// The handshake completed.
    Connected,
    /// The association was lost; the adapter holds no association any more.
    Disconnected,
    /// The stream became usable and is now tracked.
    StreamOpened(u16),
    /// The stream was torn down and is no longer tracked.
    StreamClosed(u16),
    /// One reassembled message: stream id, payload-protocol identifier, bytes.
    Data(u16, u32, Vec<u8>),
    /// Datagrams that the host must put on the wire.
    Transmit(Vec<Vec<u8>>),
    /// The deadline changed: milliseconds from now, or no deadline at all.
    Timeout(Option<u128>),
}

/// Why a stream or timer operation was refused.
#[derive(Debug, Clone, Copy, PartialEq, Eq, Structural)]
pub enum StreamError {
    /// No usable association.
    NotConnected,
    /// The stream id is already in use.
    AlreadyExists,
    /// The engine could not create the stream.
    UnableToCreate,
    /// The stream id is not known.
    InvalidId,
    /// The engine could not shut the stream down.
    UnableToStop,
    /// The engine could not accept the payload.
    UnableToSend,
}

/// The engine could not allocate an association.
#[derive(Debug, Clone, Copy, PartialEq, Eq, Structural)]
pub struct ConnectFailed;

/// What became of one inbound datagram.
#[derive(Debug, Clone, Copy, PartialEq, Eq, Structural)]
pub enum Inbound {
    /// The datagram was malformed or unroutable and had no effect.
    Ignored,
    /// The datagram started the adapter's association.
    Accepted,
    /// The datagram was handed to the existing association.
    Forwarded,
    /// The datagram asked for a second association, or addressed one that the
    /// adapter does not hold; it was dropped and the state is unchanged.
    Rejected,
}

} // verus!
