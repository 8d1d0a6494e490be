//! What can go wrong, and for which reason a transport socket is closed.
use vstd::prelude::*;

verus! {

/// The reason for which a transport socket is closed.
#[derive(Debug, Clone, Copy, PartialEq, Eq, Structural)]
pub enum DisconnectReason {
    /// The connection was closed.
    TransportClose,
    /// The client sent several polling requests at the same time.
    MultipleHttpPollingError,
    /// A packet could not be parsed.
    PacketParsingError,
    /// The transport failed.
    TransportError,
    /// The client did not answer the heartbeat.
    HeartbeatTimeout,
    /// The server is being closed.
    ClosingServer,
}

/// Why a namespace did not take a connection or a packet.
#[derive(Debug, Clone, Copy, PartialEq, Eq, Structural)]
pub struct NamespaceError {
    /// The reason for which the transport socket has to be closed, or `None` if
    /// it can be kept.
    pub fatal: Option<DisconnectReason>,
}

/// Why a message was not emitted to the selected sockets.
#[derive(Debug)]
pub enum BroadcastError<E> {
    /// The data could not be serialised.
    Serialize(serde_json::Error),
    /// The adapter failed.
    Adapter(E),
}

} // verus!
