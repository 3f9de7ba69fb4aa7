//! The outbound half of a peer connection: framing requests and judging replies.

use vstd::prelude::*;
use crate::codec::{Message, MessageView, MAX_PAYLOAD_LEN};
use crate::error::ClientError;
use crate::request_map::{first_free, is_full, successor, RequestMap};

verus! {

// The kind bytes of the messages a wallet exchanges with a full node.
pub const REQUEST_TRANSACTION: u8 = 22;
pub const RESPOND_TRANSACTION: u8 = 23;
pub const REQUEST_PEERS: u8 = 43;
pub const RESPOND_PEERS: u8 = 44;
pub const REQUEST_PUZZLE_SOLUTION: u8 = 45;
pub const RESPOND_PUZZLE_SOLUTION: u8 = 46;
pub const REJECT_PUZZLE_SOLUTION: u8 = 47;
pub const SEND_TRANSACTION: u8 = 48;
pub const TRANSACTION_ACK: u8 = 49;
pub const NEW_PEAK_WALLET: u8 = 50;
pub const COIN_STATE_UPDATE: u8 = 69;
pub const REGISTER_FOR_PH_UPDATES: u8 = 70;
pub const RESPOND_TO_PH_UPDATES: u8 = 71;
pub const REGISTER_FOR_COIN_UPDATES: u8 = 72;
pub const RESPOND_TO_COIN_UPDATES: u8 = 73;
pub const REQUEST_CHILDREN: u8 = 74;
pub const RESPOND_CHILDREN: u8 = 75;
pub const REQUEST_REMOVE_PUZZLE_SUBSCRIPTIONS: u8 = 94;
pub const RESPOND_REMOVE_PUZZLE_SUBSCRIPTIONS: u8 = 95;
pub const REQUEST_REMOVE_COIN_SUBSCRIPTIONS: u8 = 96;
pub const RESPOND_REMOVE_COIN_SUBSCRIPTIONS: u8 = 97;
pub const REQUEST_PUZZLE_STATE: u8 = 98;
pub const RESPOND_PUZZLE_STATE: u8 = 99;
pub const REJECT_PUZZLE_STATE: u8 = 100;
pub const REQUEST_COIN_STATE: u8 = 101;
pub const RESPOND_COIN_STATE: u8 = 102;
pub const REJECT_COIN_STATE: u8 = 103;

/// The requests a wallet makes of a full node.
#[derive(Debug, Clone, Copy, PartialEq, Eq, Structural)]
pub enum RequestKind {
    SendTransaction,
    RequestPuzzleState,
    RequestCoinState,
    RegisterForPhUpdates,
    RegisterForCoinUpdates,
    RequestRemovePuzzleSubscriptions,
    RequestRemoveCoinSubscriptions,
    RequestTransaction,
    RequestPuzzleSolution,
    RequestChildren,
    RequestPeers,
}

impl RequestKind {
    /// The kind byte of the request itself.
    pub open spec fn spec_opcode(self) -> u8 {
        match self {
            RequestKind::SendTransaction => SEND_TRANSACTION,
            RequestKind::RequestPuzzleState => REQUEST_PUZZLE_STATE,
            RequestKind::RequestCoinState => REQUEST_COIN_STATE,
            RequestKind::RegisterForPhUpdates => REGISTER_FOR_PH_UPDATES,
            RequestKind::RegisterForCoinUpdates => REGISTER_FOR_COIN_UPDATES,
            RequestKind::RequestRemovePuzzleSubscriptions => REQUEST_REMOVE_PUZZLE_SUBSCRIPTIONS,
            RequestKind::RequestRemoveCoinSubscriptions => REQUEST_REMOVE_COIN_SUBSCRIPTIONS,
            RequestKind::RequestTransaction => REQUEST_TRANSACTION,
            RequestKind::RequestPuzzleSolution => REQUEST_PUZZLE_SOLUTION,
            RequestKind::RequestChildren => REQUEST_CHILDREN,
            RequestKind::RequestPeers => REQUEST_PEERS,
        }
    }

    /// The kind byte of the reply that grants the request.
    pub open spec fn spec_response(self) -> u8 {
        match self {
            RequestKind::SendTransaction => TRANSACTION_ACK,
            RequestKind::RequestPuzzleState => RESPOND_PUZZLE_STATE,
            RequestKind::RequestCoinState => RESPOND_COIN_STATE,
            RequestKind::RegisterForPhUpdates => RESPOND_TO_PH_UPDATES,
            RequestKind::RegisterForCoinUpdates => RESPOND_TO_COIN_UPDATES,
            RequestKind::RequestRemovePuzzleSubscriptions => RESPOND_REMOVE_PUZZLE_SUBSCRIPTIONS,
            RequestKind::RequestRemoveCoinSubscriptions => RESPOND_REMOVE_COIN_SUBSCRIPTIONS,
            RequestKind::RequestTransaction => RESPOND_TRANSACTION,
            RequestKind::RequestPuzzleSolution => RESPOND_PUZZLE_SOLUTION,
            RequestKind::RequestChildren => RESPOND_CHILDREN,
            RequestKind::RequestPeers => RESPOND_PEERS,
        }
    }

    /// The kind byte of the reply that refuses the request, for the requests a peer may refuse.
    pub open spec fn spec_rejection(self) -> Option<u8> {
        match self {
            RequestKind::RequestPuzzleState => Some(REJECT_PUZZLE_STATE),
            RequestKind::RequestCoinState => Some(REJECT_COIN_STATE),
            RequestKind::RequestPuzzleSolution => Some(REJECT_PUZZLE_SOLUTION),
            _ => None,
        }
    }

    /// The kind byte of the request itself.
    #[verifier::when_used_as_spec(spec_opcode)]
    pub fn opcode(self) -> (kind: u8)
        ensures
            kind == self.spec_opcode(),
    {
        match self {
            RequestKind::SendTransaction => SEND_TRANSACTION,
            RequestKind::RequestPuzzleState => REQUEST_PUZZLE_STATE,
            RequestKind::RequestCoinState => REQUEST_COIN_STATE,
            RequestKind::RegisterForPhUpdates => REGISTER_FOR_PH_UPDATES,
            RequestKind::RegisterForCoinUpdates => REGISTER_FOR_COIN_UPDATES,
            RequestKind::RequestRemovePuzzleSubscriptions => REQUEST_REMOVE_PUZZLE_SUBSCRIPTIONS,
            RequestKind::RequestRemoveCoinSubscriptions => REQUEST_REMOVE_COIN_SUBSCRIPTIONS,
            RequestKind::RequestTransaction => REQUEST_TRANSACTION,
            RequestKind::RequestPuzzleSolution => REQUEST_PUZZLE_SOLUTION,
            RequestKind::RequestChildren => REQUEST_CHILDREN,
            RequestKind::RequestPeers => REQUEST_PEERS,
        }
    }

    /// The kind byte of the reply that grants the request.
    #[verifier::when_used_as_spec(spec_response)]
    pub fn response(self) -> (kind: u8)
        ensures
            kind == self.spec_response(),
    {
        match self {
            RequestKind::SendTransaction => TRANSACTION_ACK,
            RequestKind::RequestPuzzleState => RESPOND_PUZZLE_STATE,
            RequestKind::RequestCoinState => RESPOND_COIN_STATE,
            RequestKind::RegisterForPhUpdates => RESPOND_TO_PH_UPDATES,
            RequestKind::RegisterForCoinUpdates => RESPOND_TO_COIN_UPDATES,
            RequestKind::RequestRemovePuzzleSubscriptions => RESPOND_REMOVE_PUZZLE_SUBSCRIPTIONS,
            RequestKind::RequestRemoveCoinSubscriptions => RESPOND_REMOVE_COIN_SUBSCRIPTIONS,
            RequestKind::RequestTransaction => RESPOND_TRANSACTION,
            RequestKind::RequestPuzzleSolution => RESPOND_PUZZLE_SOLUTION,
            RequestKind::RequestChildren => RESPOND_CHILDREN,
            RequestKind::RequestPeers => RESPOND_PEERS,
        }
    }

    /// The kind byte of the reply that refuses the request, for the requests a peer may refuse.
    #[verifier::when_used_as_spec(spec_rejection)]
    pub fn rejection(self) -> (kind: Option<u8>)
        ensures
            kind == self.spec_rejection(),
    {
        match self {
            RequestKind::RequestPuzzleState => Some(REJECT_PUZZLE_STATE),
            RequestKind::RequestCoinState => Some(REJECT_COIN_STATE),
            RequestKind::RequestPuzzleSolution => Some(REJECT_PUZZLE_SOLUTION),
            _ => None,
        }
    }
}

/// A request ready for the wire.
#[derive(Debug, Clone, PartialEq, Eq)]
pub struct Outgoing {
    /// The id under which the sink is parked and which the reply will carry.
    pub id: u16,
    /// The encoded request.
    pub frame: Vec<u8>,
}

/// Why a request was not parked; the sink comes back unused.
#[derive(Debug)]
pub enum Refused<S> {
    /// The body is longer than a frame may carry.
    Oversize(S),
    /// All request ids are live.
    NoFreeId(S),
}

/// The body of a reply, by what the peer said.
#[derive(Debug, Clone, PartialEq, Eq)]
pub enum Reply {
    /// The peer granted the request.
    Response(Vec<u8>),
    /// The peer refused the request.
    Rejection(Vec<u8>),
}

/// Frames a one-way message: one that carries no id and expects no reply.
pub fn frame_one_way(kind: u8, body: Vec<u8>) -> (r: Result<Vec<u8>, ClientError>)
    ensures
        match r {
            Ok(frame) => body@.len() <= MAX_PAYLOAD_LEN && frame@ == (MessageView {
                kind,
                id: None,
                payload: body@,
            }).encoding(),
            Err(e) => body@.len() > MAX_PAYLOAD_LEN && e is MalformedFrame,
        },
{
    let message = Message { kind, id: None, payload: body };
    message.encode()
}

/// Starts a request: picks a free id, parks `sink` under it and frames the request with that id.
///
/// Nothing is parked when the body is over the length cap or no id is free.
pub fn begin_request<S>(requests: &mut RequestMap<S>, sink: S, kind: u8, body: Vec<u8>) -> (r:
    Result<Outgoing, Refused<S>>)
    ensures
        match r {
            Ok(out) => {
                &&& body@.len() <= MAX_PAYLOAD_LEN
                &&& first_free(old(requests)@.dom(), old(requests).cursor()) == Some(out.id)
                &&& !old(requests)@.contains_key(out.id)
                &&& final(requests)@ == old(requests)@.insert(out.id, sink)
                &&& final(requests).cursor() == successor(out.id)
                &&& out.frame@ == (MessageView { kind, id: Some(out.id), payload: body@ }).encoding()
            },
            Err(Refused::Oversize(returned)) => {
                &&& returned == sink
                &&& body@.len() > MAX_PAYLOAD_LEN
                &&& *final(requests) == *old(requests)
            },
            Err(Refused::NoFreeId(returned)) => {
                &&& returned == sink
                &&& body@.len() <= MAX_PAYLOAD_LEN
                &&& is_full(old(requests)@.dom())
                &&& final(requests)@ == old(requests)@
                &&& final(requests).cursor() == old(requests).cursor()
            },
        },
{
    if body.len() > MAX_PAYLOAD_LEN {
        return Err(Refused::Oversize(sink));
    }
    let id = match requests.insert(sink) {
        Ok(id) => id,
        Err(sink) => {
            return Err(Refused::NoFreeId(sink));
        },
    };
    let message = Message { kind, id: Some(id), payload: body };
    Ok(Outgoing { id, frame: message.encode_well_formed() })
}

fn invalid_response(expected: Vec<u8>, got: u8) -> (e: ClientError)
    ensures
        e matches ClientError::InvalidResponse(kinds, kind) && kinds@ == expected@ && kind == got,
{
    ClientError::InvalidResponse(expected, got)
}

/// Judges the reply to a request that a peer cannot refuse.
///
/// Returns the reply's body iff its kind is `expected`; any other kind is an
/// `InvalidResponse` that names the expected kind and the one received.
pub fn expect_response(message: Message, expected: u8) -> (r: Result<Vec<u8>, ClientError>)
    ensures
        match r {
            Ok(body) => message.kind == expected && body@ == message.payload@,
            Err(e) => {
                &&& message.kind != expected
                &&& e matches ClientError::InvalidResponse(kinds, got)
                &&& kinds@ == seq![expected]
                &&& got == message.kind
            },
        },
{
    if message.kind != expected {
        let mut kinds: Vec<u8> = Vec::new();
        kinds.push(expected);
        return Err(invalid_response(kinds, message.kind));
    }
    Ok(message.payload)
}

/// Judges the reply to a request that a peer may refuse.
///
/// A reply of kind `response` grants, one of kind `rejection` refuses; any
/// other kind is an `InvalidResponse` that names both and the one received.
pub fn expect_reply(message: Message, response: u8, rejection: u8) -> (r: Result<
    Reply,
    ClientError,
>)
    ensures
        match r {
            Ok(Reply::Response(body)) => message.kind == response && body@ == message.payload@,
            Ok(Reply::Rejection(body)) => message.kind != response && message.kind == rejection
                && body@ == message.payload@,
            Err(e) => {
                &&& message.kind != response
                &&& message.kind != rejection
                &&& e matches ClientError::InvalidResponse(kinds, got)
                &&& kinds@ == seq![response, rejection]
                &&& got == message.kind
            },
        },
{
    if message.kind != response && message.kind != rejection {
        let mut kinds: Vec<u8> = Vec::new();
        kinds.push(response);
        kinds.push(rejection);
        return Err(invalid_response(kinds, message.kind));
    }
    if message.kind == response {
        Ok(Reply::Response(message.payload))
    } else {
        Ok(Reply::Rejection(message.payload))
    }
}

/// The kinds of reply that `request` accepts, the granting one first.
pub open spec fn accepted_kinds(request: RequestKind) -> Seq<u8> {
    match request.spec_rejection() {
        None => seq![request.spec_response()],
        Some(rejection) => seq![request.spec_response(), rejection],
    }
}

impl RequestKind {
    /// Judges the reply to this request.
    ///
    /// The reply's body comes back as a [`Reply::Response`] when its kind is the
    /// one that grants this request, as a [`Reply::Rejection`] when this request
    /// can be refused and the kind is the one that refuses it; any other kind
    /// is an `InvalidResponse` with the accepted kinds and the one received.
    pub fn accept(self, message: Message) -> (r: Result<Reply, ClientError>)
        ensures
            match r {
                Ok(Reply::Response(body)) => message.kind == self.spec_response() && body@
                    == message.payload@,
                Ok(Reply::Rejection(body)) => self.spec_rejection() == Some(message.kind) && body@
                    == message.payload@,
                Err(e) => {
                    &&& message.kind != self.spec_response()
                    &&& self.spec_rejection() != Some(message.kind)
                    &&& e matches ClientError::InvalidResponse(kinds, got)
                    &&& kinds@ == accepted_kinds(self)
                    &&& got == message.kind
                },
            },
    {
        match self.rejection() {
            None => match expect_response(message, self.response()) {
                Ok(body) => Ok(Reply::Response(body)),
                Err(e) => Err(e),
            },
            Some(rejection) => expect_reply(message, self.response(), rejection),
        }
    }
}

} // verus!
