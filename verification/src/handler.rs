//! The connection handle.
//!
//! A handle is a stream to a peer, a listener for peers, or closed:
//!
//! ```text
//! new_client ──▶ ActiveStream ──close_handel──▶ Closed
//! new_server ──▶ Listener ──accept──▶ (a new ActiveStream handle)
//! ```
//!
//! The handle holds no socket. The caller owns the socket and reports what
//! happened on it; the functions here decide what that means and what comes
//! next. Sending, receiving and closing are for streams only: on any other
//! handle they answer [`NetError::NoStream`] and change nothing.

use crate::config::IrisNetworkConfig;
use crate::error::NetError;
use crate::frame::{encode_frame, fits, frame};
use crate::reader::{
    deliver, missing, request_size, retained, within_frame, Delivery, FrameReader, Progress,
};
use vstd::prelude::*;

verus! {

/// What a handle stands for.
#[derive(Clone, Copy, Debug, PartialEq, Eq, Structural)]
pub enum Role {
    /// An open two-way stream to one peer.
    ActiveStream,
    /// A listener that accepts incoming connections.
    Listener,
    /// Nothing any more.
    Closed,
}

/// What an [`IrisNetHandler`] is, to its callers.
pub struct HandlerState {
    /// What the handle stands for.
    pub role: Role,
    /// The framing of all traffic on the handle.
    pub config: IrisNetworkConfig,
    /// The bytes that have arrived of the inbound frame in progress.
    pub received: Seq<u8>,
}

impl HandlerState {
    /// A handle in `role` with no inbound frame in progress.
    pub open spec fn fresh(role: Role, config: IrisNetworkConfig) -> HandlerState {
        HandlerState { role, config, received: Seq::empty() }
    }
}

/// One end of a connection, or a listener.
pub struct IrisNetHandler {
    role: Role,
    reader: FrameReader,
}

impl View for IrisNetHandler {
    type V = HandlerState;

    closed spec fn view(&self) -> HandlerState {
        HandlerState {
            role: self.role,
            config: self.reader@.config,
            received: self.reader@.received,
        }
    }
}

/// What the transport reports to [`read_message`].
#[derive(Debug, PartialEq, Eq)]
pub enum ReadEvent {
    /// Nothing yet: the caller is about to receive.
    Begin,
    /// A read returned these bytes; none at all if the peer has closed.
    Bytes(Vec<u8>),
    /// A read failed, for this reason.
    Failed(String),
}

/// A [`ReadEvent`] with its bytes as a sequence.
pub enum ReadReport {
    /// Nothing yet.
    Begin,
    /// A read returned these bytes.
    Bytes(Seq<u8>),
    /// A read failed, for this reason.
    Failed(String),
}

impl View for ReadEvent {
    type V = ReadReport;

    open spec fn view(&self) -> ReadReport {
        match self {
            ReadEvent::Begin => ReadReport::Begin,
            ReadEvent::Bytes(chunk) => ReadReport::Bytes(chunk@),
            ReadEvent::Failed(cause) => ReadReport::Failed(*cause),
        }
    }
}

/// What [`read_message`] asks for or concludes.
#[derive(Debug, PartialEq, Eq)]
pub enum ReadStep {
    /// Read at most this many bytes from the stream and report them.
    Read(usize),
    /// A message has arrived whole; this is its payload.
    Message(Vec<u8>),
    /// The peer closed between two messages: there are no more.
    Closed,
    /// Receiving failed.
    Failed(NetError),
}

/// A [`ReadStep`] with its payload as a sequence.
pub enum ReadOutcome {
    /// Read at most this many bytes.
    Read(usize),
    /// A whole message with this payload.
    Message(Seq<u8>),
    /// The peer closed between two messages.
    Closed,
    /// Receiving failed.
    Failed(NetError),
}

impl View for ReadStep {
    type V = ReadOutcome;

    open spec fn view(&self) -> ReadOutcome {
        match self {
            ReadStep::Read(n) => ReadOutcome::Read(*n),
            ReadStep::Message(payload) => ReadOutcome::Message(payload@),
            ReadStep::Closed => ReadOutcome::Closed,
            ReadStep::Failed(e) => ReadOutcome::Failed(*e),
        }
    }
}

/// What the transport reports to [`IrisNetHandler::close_handel`].
#[derive(Debug, PartialEq, Eq)]
pub enum CloseEvent {
    /// Nothing yet: the caller is about to close.
    Begin,
    /// The flush ended, well or with this reason for its failure.
    Flushed(Result<(), String>),
    /// The shutdown of both directions ended, well or with this reason for
    /// its failure.
    ShutDown(Result<(), String>),
}

/// What [`IrisNetHandler::close_handel`] asks for or concludes.
#[derive(Debug, PartialEq, Eq)]
pub enum CloseStep {
    /// Flush pending output and report how it went.
    Flush,
    /// Shut both directions of the stream down and report how it went.
    Shutdown,
    /// The handle is closed.
    Done,
    /// Closing failed; the handle is as it was.
    Failed(NetError),
}

impl IrisNetHandler {
    /// The handle of a client, from the outcome of its attempt to connect.
    pub fn new_client(config: IrisNetworkConfig, connected: Result<(), String>) -> (handler: Result<
        IrisNetHandler,
        NetError,
    >)
        ensures
            handler_view(handler) == match connected {
                Ok(_) => Ok::<HandlerState, NetError>(
                    HandlerState::fresh(Role::ActiveStream, config),
                ),
                Err(cause) => Err(NetError::Connect(cause)),
            },
    {
        match connected {
            Ok(_) => Ok(IrisNetHandler::open_stream(config)),
            Err(cause) => Err(NetError::Connect(cause)),
        }
    }

    /// The handle of a stream that has just been opened.
    pub(crate) fn open_stream(config: IrisNetworkConfig) -> (handler: IrisNetHandler)
        ensures
            handler@ == HandlerState::fresh(Role::ActiveStream, config),
    {
        IrisNetHandler { role: Role::ActiveStream, reader: FrameReader::new(config) }
    }

    /// The handle of a server, from the outcome of its attempt to bind.
    pub fn new_server(config: IrisNetworkConfig, bound: Result<(), String>) -> (handler: Result<
        IrisNetHandler,
        NetError,
    >)
        ensures
            handler_view(handler) == match bound {
                Ok(_) => Ok::<HandlerState, NetError>(HandlerState::fresh(Role::Listener, config)),
                Err(cause) => Err(NetError::Bind(cause)),
            },
    {
        match bound {
            Ok(_) => Ok(IrisNetHandler { role: Role::Listener, reader: FrameReader::new(config) }),
            Err(cause) => Err(NetError::Bind(cause)),
        }
    }

    /// What the handle stands for.
    pub fn role(&self) -> (role: Role)
        ensures
            role == self@.role,
    {
        self.role
    }

    /// The framing of all traffic on the handle.
    pub fn config(&self) -> (config: IrisNetworkConfig)
        ensures
            config == self@.config,
    {
        self.reader.config()
    }

    /// The handle of an incoming connection, from the outcome of one attempt
    /// to accept on this listener.
    ///
    /// The new handle is a stream with this listener's framing. The listener
    /// itself is the same after a failure as after a success.
    pub fn accept(&self, accepted: Result<(), String>) -> (handler: Result<
        IrisNetHandler,
        NetError,
    >)
        ensures
            handler_view(handler) == accept_result(self@, accepted),
    {
        match self.role {
            Role::Listener => match accepted {
                Ok(_) => Ok(IrisNetHandler::open_stream(self.reader.config())),
                Err(cause) => Err(NetError::Accept(cause)),
            },
            _ => Err(NetError::NoListener),
        }
    }

    /// One step of closing a stream: flush, then shut down, then closed.
    ///
    /// Begin with [`CloseEvent::Begin`], do what the answer asks, and report
    /// the outcome, until the answer is [`CloseStep::Done`] or
    /// [`CloseStep::Failed`]. The handle changes only when the shutdown has
    /// succeeded: it is closed then, and what had arrived of an unfinished
    /// frame is dropped.
    pub fn close_handel(net_handler: &mut Self, event: CloseEvent) -> (step: CloseStep)
        ensures
            step == close_step(old(net_handler)@, event),
            final(net_handler)@ == close_state(old(net_handler)@, event),
    {
        match net_handler.role {
            Role::ActiveStream => match event {
                CloseEvent::Begin => CloseStep::Flush,
                CloseEvent::Flushed(Ok(_)) => CloseStep::Shutdown,
                CloseEvent::Flushed(Err(cause)) => CloseStep::Failed(NetError::Flush(cause)),
                CloseEvent::ShutDown(Ok(_)) => {
                    net_handler.role = Role::Closed;
                    net_handler.reader = FrameReader::new(net_handler.reader.config());
                    CloseStep::Done
                },
                CloseEvent::ShutDown(Err(cause)) => CloseStep::Failed(NetError::Shutdown(cause)),
            },
            _ => CloseStep::Failed(NetError::NoStream),
        }
    }
}

/// A handle or a failure, the handle seen by its state.
pub open spec fn handler_view(handler: Result<IrisNetHandler, NetError>) -> Result<
    HandlerState,
    NetError,
> {
    match handler {
        Ok(h) => Ok(h@),
        Err(e) => Err(e),
    }
}

/// What one attempt to accept on a handle in state `listener` gives.
pub open spec fn accept_result(listener: HandlerState, accepted: Result<(), String>) -> Result<
    HandlerState,
    NetError,
> {
    if listener.role != Role::Listener {
        Err(NetError::NoListener)
    } else {
        match accepted {
            Ok(_) => Ok(HandlerState::fresh(Role::ActiveStream, listener.config)),
            Err(cause) => Err(NetError::Accept(cause)),
        }
    }
}

/// What closing answers to `event` on a handle in state `before`.
pub open spec fn close_step(before: HandlerState, event: CloseEvent) -> CloseStep {
    if before.role != Role::ActiveStream {
        CloseStep::Failed(NetError::NoStream)
    } else {
        match event {
            CloseEvent::Begin => CloseStep::Flush,
            CloseEvent::Flushed(Ok(_)) => CloseStep::Shutdown,
            CloseEvent::Flushed(Err(cause)) => CloseStep::Failed(NetError::Flush(cause)),
            CloseEvent::ShutDown(Ok(_)) => CloseStep::Done,
            CloseEvent::ShutDown(Err(cause)) => CloseStep::Failed(NetError::Shutdown(cause)),
        }
    }
}

/// The state in which closing leaves a handle that was in state `before`.
pub open spec fn close_state(before: HandlerState, event: CloseEvent) -> HandlerState {
    match event {
        CloseEvent::ShutDown(Ok(_)) if before.role == Role::ActiveStream => HandlerState::fresh(
            Role::Closed,
            before.config,
        ),
        _ => before,
    }
}

/// What comes of closing a handle in state `before` step by step, on a
/// stream whose flush would end as `flushed` and whose shutdown would end as
/// `shut_down`: the state the handle is left in, and the last answer.
pub open spec fn close_run(
    before: HandlerState,
    flushed: Result<(), String>,
    shut_down: Result<(), String>,
) -> (HandlerState, CloseStep) {
    let begun = close_state(before, CloseEvent::Begin);
    match close_step(before, CloseEvent::Begin) {
        CloseStep::Flush => {
            let flush = close_state(begun, CloseEvent::Flushed(flushed));
            match close_step(begun, CloseEvent::Flushed(flushed)) {
                CloseStep::Shutdown => (
                    close_state(flush, CloseEvent::ShutDown(shut_down)),
                    close_step(flush, CloseEvent::ShutDown(shut_down)),
                ),
                last => (flush, last),
            }
        },
        last => (begun, last),
    }
}

/// Closing flushes, then shuts down, and stops at the first failure. Only a
/// stream can be closed, and it is closed only when both steps succeeded;
/// in every other case the handle is left as it was. After a failed flush no
/// shutdown is attempted.
pub proof fn lemma_close_run(
    before: HandlerState,
    flushed: Result<(), String>,
    shut_down: Result<(), String>,
)
    ensures
        close_run(before, flushed, shut_down) == if before.role != Role::ActiveStream {
            (before, CloseStep::Failed(NetError::NoStream))
        } else {
            match (flushed, shut_down) {
                (Err(cause), _) => (before, CloseStep::Failed(NetError::Flush(cause))),
                (Ok(_), Err(cause)) => (before, CloseStep::Failed(NetError::Shutdown(cause))),
                (Ok(_), Ok(_)) => (
                    HandlerState::fresh(Role::Closed, before.config),
                    CloseStep::Done,
                ),
            }
        },
{
}

/// The bytes to put on the wire for a message whose encoding is `payload`.
///
/// The caller writes them to the stream and flushes. Nothing is to be written
/// when this fails: a handle without a stream gives [`NetError::NoStream`],
/// and on a stream a payload too long for the prefix gives
/// [`NetError::Overflow`], after which the connection is still good.
pub fn send_message(net_handler: &IrisNetHandler, payload: &[u8]) -> (wire: Result<
    Vec<u8>,
    NetError,
>)
    ensures
        match wire {
            Ok(bytes) => net_handler@.role == Role::ActiveStream && fits(
                net_handler@.config,
                payload@.len(),
            ) && bytes@ == frame(net_handler@.config, payload@),
            Err(e) => if net_handler@.role != Role::ActiveStream {
                e == NetError::NoStream
            } else {
                !fits(net_handler@.config, payload@.len()) && e == NetError::Overflow
            },
        },
{
    match net_handler.role {
        Role::ActiveStream => encode_frame(net_handler.reader.config(), payload),
        _ => Err(NetError::NoStream),
    }
}

/// One step of receiving a message.
///
/// Begin with [`ReadEvent::Begin`]. While the answer is [`ReadStep::Read`],
/// read at most that many bytes from the stream and report what came. Bytes
/// read so end where the message in progress ends, or before, as they must:
/// [`lemma_wanted_stays_within_frame`](crate::reader::lemma_wanted_stays_within_frame)
/// shows it. The other answers end the exchange: a whole message, an orderly
/// close by the peer before any byte of a next message, or a failure. A
/// close inside a message is the failure [`NetError::UnexpectedEof`].
pub fn read_message(net_handler: &mut IrisNetHandler, event: ReadEvent) -> (step: ReadStep)
    requires
        old(net_handler)@.role == Role::ActiveStream ==> match event {
            ReadEvent::Bytes(chunk) => within_frame(
                old(net_handler)@.config,
                old(net_handler)@.received + chunk@,
            ),
            _ => true,
        },
    ensures
        step@ == read_outcome(old(net_handler)@, event@),
        final(net_handler)@ == read_state(old(net_handler)@, event@),
        match step {
            ReadStep::Read(n) => n > 0,
            _ => true,
        },
{
    match net_handler.role {
        Role::ActiveStream => match event {
            ReadEvent::Begin => ReadStep::Read(net_handler.reader.wanted()),
            ReadEvent::Failed(cause) => ReadStep::Failed(NetError::Read(cause)),
            ReadEvent::Bytes(chunk) => match net_handler.reader.accept(chunk.as_slice()) {
                Progress::Pending => ReadStep::Read(net_handler.reader.wanted()),
                Progress::Message(payload) => ReadStep::Message(payload),
                Progress::Closed => ReadStep::Closed,
                Progress::Truncated => ReadStep::Failed(NetError::UnexpectedEof),
            },
        },
        _ => ReadStep::Failed(NetError::NoStream),
    }
}

/// What receiving answers to `event` on a handle in state `before`.
pub open spec fn read_outcome(before: HandlerState, event: ReadReport) -> ReadOutcome {
    if before.role != Role::ActiveStream {
        ReadOutcome::Failed(NetError::NoStream)
    } else {
        match event {
            ReadReport::Begin => ReadOutcome::Read(
                request_size(missing(before.config, before.received)),
            ),
            ReadReport::Failed(cause) => ReadOutcome::Failed(NetError::Read(cause)),
            ReadReport::Bytes(chunk) => match deliver(before.config, before.received, chunk) {
                Delivery::Pending => ReadOutcome::Read(
                    request_size(missing(before.config, before.received + chunk)),
                ),
                Delivery::Message(payload) => ReadOutcome::Message(payload),
                Delivery::Closed => ReadOutcome::Closed,
                Delivery::Truncated => ReadOutcome::Failed(NetError::UnexpectedEof),
            },
        }
    }
}

/// The state in which receiving leaves a handle that was in state `before`.
pub open spec fn read_state(before: HandlerState, event: ReadReport) -> HandlerState {
    if before.role != Role::ActiveStream {
        before
    } else {
        match event {
            ReadReport::Bytes(chunk) => HandlerState {
                received: retained(before.config, before.received, chunk),
                ..before
            },
            _ => before,
        }
    }
}

} // verus!
