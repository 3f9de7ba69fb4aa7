//! Errors reported by the peer client.

use vstd::prelude::*;

verus! {

/// What can go wrong between this client and one peer.
#[derive(Debug, Clone, PartialEq, Eq)]
pub enum ClientError {
    /// The socket, the TLS session or the WebSocket layer failed.
    Transport,
    /// A frame did not decode, or a payload exceeded the length cap.
    MalformedFrame,
    /// The peer presented no TLS certificate.
    MissingCertificate,
    /// A response carried a kind outside the expected set: the expected kinds, then the kind received.
    InvalidResponse(Vec<u8>, u8),
    /// A correlated message arrived whose id is not live.
    UnexpectedMessage(u8),
    /// The inbound task ended before a response arrived.
    PeerDropped,
    /// The channel of unsolicited events did not accept a message.
    EventNotSent,
}

} // verus!
