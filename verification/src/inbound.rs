//! The inbound demultiplexer of a peer connection.
//!
//! The task that reads the transport hands each frame to [`on_frame`], which
//! decides what becomes of it: a correlated response goes to the sink parked
//! under its id, an uncorrelated message to the channel of unsolicited events.
//! The caller performs the decision and reports back where the outcome matters.
//!
//! The task runs until the peer closes the connection, the stream ends or a
//! failure occurs; it is then terminated and every parked sink is dropped, so
//! that each waiter finds its request abandoned. Dropping the peer handle
//! tears the task down by way of `Closing`.

use vstd::prelude::*;
use crate::codec::{spec_decode, Message, MessageView};
use crate::error::ClientError;
use crate::request_map::RequestMap;

verus! {

/// Capacity of the channel of unsolicited events.
pub const EVENT_CHANNEL_CAPACITY: usize = 32;

/// Life cycle of the inbound task.
#[derive(Debug, Clone, Copy, PartialEq, Eq, Structural)]
pub enum TaskState {
    /// Frames are read and routed.
    Running,
    /// The peer handle is gone and the task is being torn down; parked sinks are still to be dropped.
    Closing,
    /// The task has ended and every parked sink has been dropped.
    Terminated,
}

/// One frame read from the transport.
#[derive(Debug, Clone, PartialEq, Eq)]
pub enum Frame {
    /// A text frame: a protocol violation on this channel.
    Text,
    /// A binary frame, which carries exactly one encoded message.
    Binary(Vec<u8>),
    /// Heartbeat.
    Ping,
    /// Heartbeat.
    Pong,
    /// The peer closes the connection.
    Close,
    /// A raw frame, which a reader never yields in normal operation.
    Raw,
}

/// What the caller is to do with a frame.
#[derive(Debug)]
pub enum Inbound<S> {
    /// Nothing.
    Skip,
    /// Log a warning and go on.
    Warn,
    /// Send `message` through `sink`, which was parked under the message's id and is no longer.
    Deliver { sink: S, message: Message },
    /// Push `message` on the channel of unsolicited events and report the outcome to [`on_forwarded`].
    Forward { message: Message },
    /// The peer closed the connection: stop reading. The parked sinks have been dropped.
    Closed,
    /// Stop reading; the task ends with this error. The parked sinks have been dropped.
    Failed(ClientError),
}

/// The mathematical value of an [`Inbound`].
pub ghost enum Routing<S> {
    Skip,
    Warn,
    Deliver { sink: S, message: MessageView },
    Forward { message: MessageView },
    Closed,
    Failed(ClientError),
}

impl<S> View for Inbound<S> {
    type V = Routing<S>;

    open spec fn view(&self) -> Routing<S> {
        match *self {
            Inbound::Skip => Routing::Skip,
            Inbound::Warn => Routing::Warn,
            Inbound::Deliver { sink, message } => Routing::Deliver { sink, message: message@ },
            Inbound::Forward { message } => Routing::Forward { message: message@ },
            Inbound::Closed => Routing::Closed,
            Inbound::Failed(e) => Routing::Failed(e),
        }
    }
}

/// Where a decoded message goes, given the sinks parked at the time.
pub open spec fn route_message<S>(parked: Map<u16, S>, message: MessageView) -> Routing<S> {
    match message.id {
        None => Routing::Forward { message },
        Some(id) => if parked.contains_key(id) {
            Routing::Deliver { sink: parked[id], message }
        } else {
            Routing::Failed(ClientError::UnexpectedMessage(message.kind))
        },
    }
}

/// What becomes of `frame` while the task is running.
pub open spec fn route<S>(parked: Map<u16, S>, frame: Frame) -> Routing<S> {
    match frame {
        Frame::Text => Routing::Warn,
        Frame::Raw => Routing::Warn,
        Frame::Ping => Routing::Skip,
        Frame::Pong => Routing::Skip,
        Frame::Close => Routing::Closed,
        Frame::Binary(bytes) => match spec_decode(bytes@) {
            None => Routing::Failed(ClientError::MalformedFrame),
            Some(message) => route_message(parked, message),
        },
    }
}

/// The sinks still parked once the routing has been decided: a delivery
/// detaches its sink, and the end of the task drops them all.
pub open spec fn parked_after<S>(parked: Map<u16, S>, routing: Routing<S>) -> Map<u16, S> {
    match routing {
        Routing::Deliver { sink, message } => parked.remove(message.id->Some_0),
        Routing::Closed => Map::empty(),
        Routing::Failed(_) => Map::empty(),
        _ => parked,
    }
}

/// The state of the task once the routing has been decided.
pub open spec fn state_after_routing<S>(routing: Routing<S>) -> TaskState {
    match routing {
        Routing::Closed => TaskState::Terminated,
        Routing::Failed(_) => TaskState::Terminated,
        _ => TaskState::Running,
    }
}

/// Routes one frame.
///
/// While running, the decision is [`route`] of the parked sinks and the frame.
/// A delivered sink leaves the table. A close frame or a failure terminates
/// the task and drops every parked sink. A task that is not running skips
/// every frame.
pub fn on_frame<S>(state: TaskState, requests: &mut RequestMap<S>, frame: Frame) -> (r: (
    TaskState,
    Inbound<S>,
))
    ensures
        state is Running ==> {
            &&& r.1@ == route(old(requests)@, frame)
            &&& r.0 == state_after_routing(r.1@)
            &&& final(requests)@ == parked_after(old(requests)@, r.1@)
        },
        !(state is Running) ==> {
            &&& r.1@ == Routing::<S>::Skip
            &&& r.0 == state
            &&& final(requests)@ == old(requests)@
        },
        final(requests).cursor() == old(requests).cursor(),
{
    match state {
        TaskState::Running => {},
        _ => {
            return (state, Inbound::Skip);
        },
    }
    match frame {
        Frame::Text => (TaskState::Running, Inbound::Warn),
        Frame::Raw => (TaskState::Running, Inbound::Warn),
        Frame::Ping => (TaskState::Running, Inbound::Skip),
        Frame::Pong => (TaskState::Running, Inbound::Skip),
        Frame::Close => {
            requests.clear();
            (TaskState::Terminated, Inbound::Closed)
        },
        Frame::Binary(bytes) => {
            let message = match Message::decode(bytes.as_slice()) {
                Ok(message) => message,
                Err(_) => {
                    requests.clear();
                    return (TaskState::Terminated, Inbound::Failed(ClientError::MalformedFrame));
                },
            };
            match message.id {
                None => (TaskState::Running, Inbound::Forward { message }),
                Some(id) => match requests.remove(id) {
                    Some(sink) => (TaskState::Running, Inbound::Deliver { sink, message }),
                    None => {
                        requests.clear();
                        (
                            TaskState::Terminated,
                            Inbound::Failed(ClientError::UnexpectedMessage(message.kind)),
                        )
                    },
                },
            }
        },
    }
}

/// Whether a report to a running task ends it.
pub open spec fn ends_task(state: TaskState, ended: bool) -> bool {
    state is Running && ended
}

/// Takes the outcome of a push on the channel of unsolicited events.
///
/// A message that the channel did not accept, because it is full or closed,
/// terminates a running task with `EventNotSent` and drops every parked sink.
pub fn on_forwarded<S>(state: TaskState, requests: &mut RequestMap<S>, accepted: bool) -> (r: (
    TaskState,
    Option<ClientError>,
))
    ensures
        r.0 == if ends_task(state, !accepted) {
            TaskState::Terminated
        } else {
            state
        },
        r.1 == if ends_task(state, !accepted) {
            Some(ClientError::EventNotSent)
        } else {
            None
        },
        final(requests)@ == if ends_task(state, !accepted) {
            Map::<u16, S>::empty()
        } else {
            old(requests)@
        },
        final(requests).cursor() == old(requests).cursor(),
{
    match state {
        TaskState::Running => {
            if accepted {
                (state, None)
            } else {
                requests.clear();
                (TaskState::Terminated, Some(ClientError::EventNotSent))
            }
        },
        _ => (state, None),
    }
}

/// Takes the end of the transport stream, with or without a transport error.
///
/// A running task is terminated and every parked sink is dropped.
pub fn on_stream_end<S>(state: TaskState, requests: &mut RequestMap<S>, failed: bool) -> (r: (
    TaskState,
    Option<ClientError>,
))
    ensures
        r.0 == if state is Running {
            TaskState::Terminated
        } else {
            state
        },
        r.1 == if state is Running && failed {
            Some(ClientError::Transport)
        } else {
            None
        },
        final(requests)@ == if state is Running {
            Map::<u16, S>::empty()
        } else {
            old(requests)@
        },
        final(requests).cursor() == old(requests).cursor(),
{
    match state {
        TaskState::Running => {
            requests.clear();
            if failed {
                (TaskState::Terminated, Some(ClientError::Transport))
            } else {
                (TaskState::Terminated, None)
            }
        },
        _ => (state, None),
    }
}

/// Takes the loss of the peer handle: a running task is to be torn down.
pub fn begin_teardown(state: TaskState) -> (next: TaskState)
    ensures
        next == if state is Running {
            TaskState::Closing
        } else {
            state
        },
{
    match state {
        TaskState::Running => TaskState::Closing,
        _ => state,
    }
}

/// Completes a teardown: drops every parked sink, so that each waiter finds its request abandoned.
pub fn shutdown<S>(requests: &mut RequestMap<S>) -> (state: TaskState)
    ensures
        state is Terminated,
        final(requests)@ == Map::<u16, S>::empty(),
        final(requests).cursor() == old(requests).cursor(),
{
    requests.clear();
    TaskState::Terminated
}

/// What a waiter gets: the response, or `PeerDropped` when its sink was dropped unused.
pub fn resolve(outcome: Option<Message>) -> (r: Result<Message, ClientError>)
    ensures
        match outcome {
            Some(message) => r == Ok::<Message, ClientError>(message),
            None => r == Err::<Message, ClientError>(ClientError::PeerDropped),
        },
{
    match outcome {
        Some(message) => Ok(message),
        None => Err(ClientError::PeerDropped),
    }
}

/// A response whose slot has been removed is reported, not delivered: once
/// `id` is detached, a correlated message for `id` yields `UnexpectedMessage`
/// with the message's kind, whatever else is parked.
pub proof fn lemma_removed_id_is_unexpected<S>(parked: Map<u16, S>, id: u16, frame: Frame)
    requires
        frame matches Frame::Binary(bytes) && spec_decode(bytes@) matches Some(message)
            && message.id == Some(id),
    ensures
        route(parked.remove(id), frame) == Routing::<S>::Failed(
            ClientError::UnexpectedMessage(spec_decode(frame->Binary_0@)->Some_0.kind),
        ),
{
}

/// A task that terminates leaves no sink parked: whatever ends it, a close
/// frame, a frame that does not decode or a response to an id that is not
/// live, every waiter finds its request abandoned.
pub proof fn lemma_termination_drops_sinks<S>(parked: Map<u16, S>, frame: Frame)
    ensures
        state_after_routing(route(parked, frame)) is Terminated <==> (route(parked, frame) is Closed
            || route(parked, frame) is Failed),
        state_after_routing(route(parked, frame)) is Terminated ==> parked_after(
            parked,
            route(parked, frame),
        ) == Map::<u16, S>::empty(),
{
}

/// A message without an id never touches the table: it is forwarded and every sink stays parked.
pub proof fn lemma_unsolicited_is_forwarded<S>(parked: Map<u16, S>, frame: Frame)
    requires
        frame matches Frame::Binary(bytes) && spec_decode(bytes@) matches Some(message)
            && message.id is None,
    ensures
        route(parked, frame) == (Routing::<S>::Forward {
            message: spec_decode(frame->Binary_0@)->Some_0,
        }),
        parked_after(parked, route(parked, frame)) == parked,
{
}

/// A delivery hands over exactly the sink parked under the message's id and frees that id.
pub proof fn lemma_delivery_frees_slot<S>(parked: Map<u16, S>, frame: Frame)
    requires
        route(parked, frame) is Deliver,
    ensures
        frame is Binary,
        spec_decode(frame->Binary_0@) matches Some(message) && message.id matches Some(id)
            && parked.contains_key(id) && route(parked, frame) == (Routing::Deliver {
            sink: parked[id],
            message,
        }) && !parked_after(parked, route(parked, frame)).contains_key(id),
{
}

} // verus!
