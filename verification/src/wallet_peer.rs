//! The two subscriptions that the sync engine makes of a peer.

use vstd::prelude::*;
use crate::codec::Message;
use crate::error::ClientError;
use crate::request::{Reply, RequestKind};
use crate::wallet::WalletError;

verus! {

/// The subscriptions of a sync run.
#[derive(Debug, Clone, Copy, PartialEq, Eq, Structural)]
pub enum Subscription {
    /// To a set of coin ids.
    Coins,
    /// To a set of puzzle hashes.
    Puzzles,
}

impl Subscription {
    /// The request that makes the subscription.
    pub open spec fn spec_request(self) -> RequestKind {
        match self {
            Subscription::Coins => RequestKind::RequestCoinState,
            Subscription::Puzzles => RequestKind::RequestPuzzleState,
        }
    }

    /// The request that makes the subscription.
    #[verifier::when_used_as_spec(spec_request)]
    pub fn request(self) -> (kind: RequestKind)
        ensures
            kind == self.spec_request(),
    {
        match self {
            Subscription::Coins => RequestKind::RequestCoinState,
            Subscription::Puzzles => RequestKind::RequestPuzzleState,
        }
    }
}

/// Judges the peer's reply to a subscription.
///
/// The body of a granting reply is returned. A refusal is an error of its
/// own, `Rejected`, never an empty success; a reply of any other kind is the
/// client's `InvalidResponse`.
pub fn accept_subscription(subscription: Subscription, message: Message) -> (r: Result<
    Vec<u8>,
    WalletError,
>)
    ensures
        match r {
            Ok(body) => message.kind == subscription.spec_request().spec_response() && body@
                == message.payload@,
            Err(WalletError::Rejected) => subscription.spec_request().spec_rejection() == Some(
                message.kind,
            ),
            Err(WalletError::Peer(e)) => {
                &&& message.kind != subscription.spec_request().spec_response()
                &&& subscription.spec_request().spec_rejection() != Some(message.kind)
                &&& e matches ClientError::InvalidResponse(kinds, got)
                &&& kinds@ == crate::request::accepted_kinds(subscription.spec_request())
                &&& got == message.kind
            },
            Err(_) => false,
        },
{
    match subscription.request().accept(message) {
        Ok(Reply::Response(body)) => Ok(body),
        Ok(Reply::Rejection(_)) => Err(WalletError::Rejected),
        Err(e) => Err(WalletError::Peer(e)),
    }
}

} // verus!
