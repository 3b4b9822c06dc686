//! The server's decisions: whom to serve, and what a worker does next.
//!
//! A server accepts connections one after another and gives each to a worker
//! of its own. The worker receives a message, hands its payload to the
//! caller's handler, sends the handler's reply, and so on until the peer
//! closes or something fails. A failure ends that one connection and no
//! other; a failed accept ends nothing at all.
//!
//! The loops themselves run in the caller, which owns the sockets, the
//! threads and the codec. After each thing it has done it asks here what to
//! do next.

use crate::error::NetError;
use crate::frame::{fits, frame};
use crate::handler::{
    read_message, read_outcome, read_state, send_message, HandlerState, IrisNetHandler, ReadEvent,
    ReadOutcome, ReadReport, ReadStep, Role,
};
use crate::reader::within_frame;
use vstd::prelude::*;

verus! {

/// What a handler is told about the connection a message came over.
#[derive(Clone, Debug, PartialEq, Eq)]
pub struct IrisNetMetadata {
    /// The peer's address, as the transport prints it.
    pub ip: String,
}

/// What the accept loop does after one attempt to accept.
pub enum ServerAction {
    /// Start a worker on this new connection, then accept again.
    Serve(IrisNetHandler, IrisNetMetadata),
    /// Report this failure, then accept again.
    Retry(NetError),
    /// Give up and return this failure: there is nothing to accept on.
    Stop(NetError),
}

/// A [`ServerAction`] with the new connection seen by its state.
pub enum Dispatch {
    /// Start a worker on a connection in this state, with this peer address.
    Serve(HandlerState, String),
    /// Report this failure, then accept again.
    Retry(NetError),
    /// Give up and return this failure.
    Stop(NetError),
}

impl View for ServerAction {
    type V = Dispatch;

    open spec fn view(&self) -> Dispatch {
        match self {
            ServerAction::Serve(handler, metadata) => Dispatch::Serve(handler@, metadata.ip),
            ServerAction::Retry(e) => Dispatch::Retry(*e),
            ServerAction::Stop(e) => Dispatch::Stop(*e),
        }
    }
}

/// What the accept loop on a handle in state `listener` does after an
/// attempt to accept that gave a peer's address, or the reason why not.
pub open spec fn dispatch(listener: HandlerState, accepted: Result<String, String>) -> Dispatch {
    if listener.role != Role::Listener {
        Dispatch::Stop(NetError::NoListener)
    } else {
        match accepted {
            Ok(peer) => Dispatch::Serve(
                HandlerState::fresh(Role::ActiveStream, listener.config),
                peer,
            ),
            Err(cause) => Dispatch::Retry(NetError::Accept(cause)),
        }
    }
}

/// One turn of the server's accept loop.
///
/// `accepted` is the outcome of one attempt to accept on `handler`: the
/// peer's address, or the reason for the failure. A connection gets a stream
/// handle with the listener's framing and the metadata its handler will see.
/// A failed attempt is reported and the loop goes on. Only a handle that is
/// no listener stops the loop.
pub fn add_server_data_manager(
    handler: &IrisNetHandler,
    accepted: Result<String, String>,
) -> (action: ServerAction)
    ensures
        action@ == dispatch(handler@, accepted),
{
    match handler.role() {
        Role::Listener => match accepted {
            Ok(peer) => ServerAction::Serve(
                IrisNetHandler::open_stream(handler.config()),
                IrisNetMetadata { ip: peer },
            ),
            Err(cause) => ServerAction::Retry(NetError::Accept(cause)),
        },
        _ => ServerAction::Stop(NetError::NoListener),
    }
}

/// What the accept loop on a handle in state `listener` does over a run of
/// attempts: one action for each attempt, up to and including the one that
/// stops the loop.
pub open spec fn accept_loop(listener: HandlerState, attempts: Seq<Result<String, String>>) -> Seq<
    Dispatch,
>
    decreases attempts.len(),
{
    if attempts.len() == 0 {
        Seq::empty()
    } else {
        let first = dispatch(listener, attempts[0]);
        if first is Stop {
            seq![first]
        } else {
            seq![first] + accept_loop(listener, attempts.drop_first())
        }
    }
}

/// On a listener the accept loop never stops, whatever fails. Every attempt
/// gets its action, and every attempt that brought a connection gets a
/// worker, however many attempts failed before it.
pub proof fn lemma_accept_resilience(listener: HandlerState, attempts: Seq<Result<String, String>>)
    requires
        listener.role == Role::Listener,
    ensures
        accept_loop(listener, attempts).len() == attempts.len(),
        forall|i: int|
            0 <= i < attempts.len() ==> (#[trigger] accept_loop(listener, attempts)[i]) == dispatch(
                listener,
                attempts[i],
            ),
        forall|i: int|
            0 <= i < attempts.len() ==> match attempts[i] {
                Ok(peer) => (#[trigger] accept_loop(listener, attempts)[i]) == Dispatch::Serve(
                    HandlerState::fresh(Role::ActiveStream, listener.config),
                    peer,
                ),
                Err(cause) => accept_loop(listener, attempts)[i] == Dispatch::Retry(
                    NetError::Accept(cause),
                ),
            },
    decreases attempts.len(),
{
    if attempts.len() > 0 {
        let rest = attempts.drop_first();
        lemma_accept_resilience(listener, rest);
        assert forall|i: int| 0 <= i < attempts.len() implies (#[trigger] accept_loop(
            listener,
            attempts,
        )[i]) == dispatch(listener, attempts[i]) by {
            if i > 0 {
                assert(accept_loop(listener, attempts)[i] == accept_loop(listener, rest)[i - 1]);
                assert(rest[i - 1] == attempts[i]);
            }
        }
    }
}

/// What the caller reports to [`worker_step`].
#[derive(Debug, PartialEq, Eq)]
pub enum WorkerEvent {
    /// The connection has just been accepted.
    Start,
    /// A read returned these bytes; none at all if the peer has closed.
    Bytes(Vec<u8>),
    /// A read failed, for this reason.
    ReadFailed(String),
    /// The handler has answered; this is its reply, encoded.
    Reply(Vec<u8>),
    /// The codec rejected the payload, for this reason.
    DecodeFailed(String),
    /// The codec could not encode the handler's reply, for this reason.
    EncodeFailed(String),
    /// The frame has been written and flushed.
    Sent,
    /// Writing the frame failed, for this reason.
    WriteFailed(String),
    /// Flushing after the frame failed, for this reason.
    FlushFailed(String),
}

/// A [`WorkerEvent`] with its bytes as a sequence.
pub enum WorkerReport {
    /// The connection has just been accepted.
    Start,
    /// A read returned these bytes.
    Bytes(Seq<u8>),
    /// A read failed, for this reason.
    ReadFailed(String),
    /// The handler's reply, encoded.
    Reply(Seq<u8>),
    /// The codec rejected the payload, for this reason.
    DecodeFailed(String),
    /// The codec could not encode the reply, for this reason.
    EncodeFailed(String),
    /// The frame has been written and flushed.
    Sent,
    /// Writing the frame failed, for this reason.
    WriteFailed(String),
    /// Flushing after the frame failed, for this reason.
    FlushFailed(String),
}

impl View for WorkerEvent {
    type V = WorkerReport;

    open spec fn view(&self) -> WorkerReport {
        match self {
            WorkerEvent::Start => WorkerReport::Start,
            WorkerEvent::Bytes(chunk) => WorkerReport::Bytes(chunk@),
            WorkerEvent::ReadFailed(cause) => WorkerReport::ReadFailed(*cause),
            WorkerEvent::Reply(payload) => WorkerReport::Reply(payload@),
            WorkerEvent::DecodeFailed(cause) => WorkerReport::DecodeFailed(*cause),
            WorkerEvent::EncodeFailed(cause) => WorkerReport::EncodeFailed(*cause),
            WorkerEvent::Sent => WorkerReport::Sent,
            WorkerEvent::WriteFailed(cause) => WorkerReport::WriteFailed(*cause),
            WorkerEvent::FlushFailed(cause) => WorkerReport::FlushFailed(*cause),
        }
    }
}

/// What a worker does next.
#[derive(Debug, PartialEq, Eq)]
pub enum WorkerAction {
    /// Read at most this many bytes from the stream and report them.
    Read(usize),
    /// Decode this payload, call the handler with the message, encode its
    /// reply and report it.
    Handle(Vec<u8>),
    /// Write these bytes to the stream, flush, and report.
    Write(Vec<u8>),
    /// Report the failure, if there is one; then close the connection and end.
    Close(Option<NetError>),
}

/// A [`WorkerAction`] with its bytes as a sequence.
pub enum WorkerPlan {
    /// Read at most this many bytes.
    Read(usize),
    /// Hand this payload to the handler.
    Handle(Seq<u8>),
    /// Write these bytes.
    Write(Seq<u8>),
    /// Close, after reporting the failure if there is one.
    Close(Option<NetError>),
}

impl View for WorkerAction {
    type V = WorkerPlan;

    open spec fn view(&self) -> WorkerPlan {
        match self {
            WorkerAction::Read(n) => WorkerPlan::Read(*n),
            WorkerAction::Handle(payload) => WorkerPlan::Handle(payload@),
            WorkerAction::Write(wire) => WorkerPlan::Write(wire@),
            WorkerAction::Close(report) => WorkerPlan::Close(*report),
        }
    }
}

/// What a worker does with the answer of a receive step: it goes on reading,
/// hands a whole message to the handler, and closes on any end of the stream.
pub open spec fn after_receive(outcome: ReadOutcome) -> WorkerPlan {
    match outcome {
        ReadOutcome::Read(n) => WorkerPlan::Read(n),
        ReadOutcome::Message(payload) => WorkerPlan::Handle(payload),
        ReadOutcome::Closed => WorkerPlan::Close(None),
        ReadOutcome::Failed(e) => WorkerPlan::Close(Some(e)),
    }
}

/// What a worker does with an encoded reply: it writes the frame, or closes
/// on a reply that cannot be sent.
pub open spec fn after_reply(before: HandlerState, payload: Seq<u8>) -> WorkerPlan {
    if before.role != Role::ActiveStream {
        WorkerPlan::Close(Some(NetError::NoStream))
    } else if fits(before.config, payload.len()) {
        WorkerPlan::Write(frame(before.config, payload))
    } else {
        WorkerPlan::Close(Some(NetError::Overflow))
    }
}

/// The receive step that a worker event amounts to, if it is one.
pub open spec fn receive_event(event: WorkerReport) -> Option<ReadReport> {
    match event {
        WorkerReport::Start => Some(ReadReport::Begin),
        WorkerReport::Sent => Some(ReadReport::Begin),
        WorkerReport::Bytes(chunk) => Some(ReadReport::Bytes(chunk)),
        WorkerReport::ReadFailed(cause) => Some(ReadReport::Failed(cause)),
        _ => None,
    }
}

/// What a worker on a connection in state `before` does after `event`.
pub open spec fn worker_plan(before: HandlerState, event: WorkerReport) -> WorkerPlan {
    match event {
        WorkerReport::Reply(payload) => after_reply(before, payload),
        WorkerReport::DecodeFailed(cause) => WorkerPlan::Close(Some(NetError::Decode(cause))),
        WorkerReport::EncodeFailed(cause) => WorkerPlan::Close(Some(NetError::Encode(cause))),
        WorkerReport::WriteFailed(cause) => WorkerPlan::Close(Some(NetError::Write(cause))),
        WorkerReport::FlushFailed(cause) => WorkerPlan::Close(Some(NetError::Flush(cause))),
        _ => after_receive(read_outcome(before, receive_event(event).unwrap())),
    }
}

/// The state in which `event` leaves a connection that was in state `before`.
pub open spec fn worker_state(before: HandlerState, event: WorkerReport) -> HandlerState {
    match receive_event(event) {
        Some(read) => read_state(before, read),
        None => before,
    }
}

/// One turn of a worker's loop.
///
/// Begin with [`WorkerEvent::Start`], do what the answer asks, and report
/// what came of it, until the answer is [`WorkerAction::Close`]. Every whole
/// message is handed out once, in the order of arrival, and the reply to it
/// is the next thing written.
pub fn worker_step(handler: &mut IrisNetHandler, event: WorkerEvent) -> (action: WorkerAction)
    requires
        old(handler)@.role == Role::ActiveStream ==> match event {
            WorkerEvent::Bytes(chunk) => within_frame(
                old(handler)@.config,
                old(handler)@.received + chunk@,
            ),
            _ => true,
        },
    ensures
        action@ == worker_plan(old(handler)@, event@),
        final(handler)@ == worker_state(old(handler)@, event@),
        match action {
            WorkerAction::Read(n) => n > 0,
            _ => true,
        },
{
    match event {
        WorkerEvent::Start => receive(handler, ReadEvent::Begin),
        WorkerEvent::Sent => receive(handler, ReadEvent::Begin),
        WorkerEvent::Bytes(chunk) => receive(handler, ReadEvent::Bytes(chunk)),
        WorkerEvent::ReadFailed(cause) => receive(handler, ReadEvent::Failed(cause)),
        WorkerEvent::Reply(payload) => match send_message(handler, payload.as_slice()) {
            Ok(wire) => WorkerAction::Write(wire),
            Err(e) => WorkerAction::Close(Some(e)),
        },
        WorkerEvent::DecodeFailed(cause) => WorkerAction::Close(Some(NetError::Decode(cause))),
        WorkerEvent::EncodeFailed(cause) => WorkerAction::Close(Some(NetError::Encode(cause))),
        WorkerEvent::WriteFailed(cause) => WorkerAction::Close(Some(NetError::Write(cause))),
        WorkerEvent::FlushFailed(cause) => WorkerAction::Close(Some(NetError::Flush(cause))),
    }
}

/// Takes one receive step and turns its answer into the worker's next action.
fn receive(handler: &mut IrisNetHandler, event: ReadEvent) -> (action: WorkerAction)
    requires
        old(handler)@.role == Role::ActiveStream ==> match event {
            ReadEvent::Bytes(chunk) => within_frame(
                old(handler)@.config,
                old(handler)@.received + chunk@,
            ),
            _ => true,
        },
    ensures
        action@ == after_receive(read_outcome(old(handler)@, event@)),
        final(handler)@ == read_state(old(handler)@, event@),
        match action {
            WorkerAction::Read(n) => n > 0,
            _ => true,
        },
{
    match read_message(handler, event) {
        ReadStep::Read(n) => WorkerAction::Read(n),
        ReadStep::Message(payload) => WorkerAction::Handle(payload),
        ReadStep::Closed => WorkerAction::Close(None),
        ReadStep::Failed(e) => WorkerAction::Close(Some(e)),
    }
}

} // verus!
