//! Reassembling frames from a stream that delivers them in pieces.
//!
//! A single read on a stream may return fewer bytes than were asked for. A
//! [`FrameReader`] keeps what has arrived of the frame in progress, says how
//! many bytes it still misses, and recognises the moment a frame is whole.
//!
//! A read that returns no bytes means the peer has closed. Between two frames
//! that is an orderly end; inside a frame it is a fault.

use crate::config::IrisNetworkConfig;
use crate::frame::{decode_length, fits, frame, lemma_prefix_round_trip, prefix_value};
use vstd::prelude::*;
use vstd::slice::slice_subrange;

verus! {

/// The payload length announced by the prefix that `received` starts with.
pub open spec fn announced(config: IrisNetworkConfig, received: Seq<u8>) -> nat
    recommends
        received.len() >= config.size.width(),
{
    prefix_value(config.endian, received.take(config.size.width() as int))
}

/// How many bytes `received` lacks of what can be asked for next: the rest of
/// the prefix while the prefix is short, the rest of the payload after that.
/// Zero exactly when `received` holds a whole frame.
pub open spec fn missing(config: IrisNetworkConfig, received: Seq<u8>) -> nat {
    let width = config.size.width();
    if received.len() < width {
        (width - received.len()) as nat
    } else if received.len() < width + announced(config, received) {
        (width + announced(config, received) - received.len()) as nat
    } else {
        0
    }
}

/// The size of the read that asks for `missing` bytes: `missing` itself, or
/// the largest `usize` where it is more.
pub open spec fn request_size(missing: nat) -> usize {
    if missing > usize::MAX {
        usize::MAX
    } else {
        missing as usize
    }
}

/// Whether `received` holds a whole frame.
pub open spec fn complete(config: IrisNetworkConfig, received: Seq<u8>) -> bool {
    missing(config, received) == 0
}

/// Whether `received` holds no byte beyond the end of the frame it starts
/// with.
pub open spec fn within_frame(config: IrisNetworkConfig, received: Seq<u8>) -> bool {
    let width = config.size.width();
    received.len() <= width || received.len() <= width + announced(config, received)
}

/// The payload of the frame that `received` starts with.
pub open spec fn payload_of(config: IrisNetworkConfig, received: Seq<u8>) -> Seq<u8>
    recommends
        complete(config, received),
{
    let width = config.size.width() as int;
    received.subrange(width, width + announced(config, received))
}

/// What one read means to a reader.
pub enum Delivery {
    /// The frame in progress is still short.
    Pending,
    /// A frame is whole; this is its payload.
    Message(Seq<u8>),
    /// The peer closed between two frames.
    Closed,
    /// The peer closed inside a frame.
    Truncated,
}

/// What a reader that holds `received` concludes from a read that returned
/// `chunk`.
pub open spec fn deliver(config: IrisNetworkConfig, received: Seq<u8>, chunk: Seq<u8>) -> Delivery {
    if chunk.len() == 0 {
        if received.len() == 0 {
            Delivery::Closed
        } else {
            Delivery::Truncated
        }
    } else if complete(config, received + chunk) {
        Delivery::Message(payload_of(config, received + chunk))
    } else {
        Delivery::Pending
    }
}

/// What a reader that held `received` holds after a read that returned
/// `chunk`: the frame in progress grown by the chunk, or nothing once the
/// frame is whole.
pub open spec fn retained(config: IrisNetworkConfig, received: Seq<u8>, chunk: Seq<u8>) -> Seq<
    u8,
> {
    if chunk.len() == 0 {
        received
    } else if complete(config, received + chunk) {
        Seq::empty()
    } else {
        received + chunk
    }
}

/// A chunk no longer than what is missing ends within the frame in progress.
pub proof fn lemma_wanted_stays_within_frame(
    config: IrisNetworkConfig,
    received: Seq<u8>,
    chunk: Seq<u8>,
)
    requires
        missing(config, received) > 0,
        chunk.len() <= missing(config, received),
    ensures
        within_frame(config, received + chunk),
{
    let width = config.size.width() as int;
    if received.len() >= width {
        assert((received + chunk).take(width) =~= received.take(width));
    }
}

/// The first `k` bytes of a frame are a whole frame only when they are all of
/// it, and until then they lack no more than the frame still has to give.
pub proof fn lemma_missing_within_frame(config: IrisNetworkConfig, payload: Seq<u8>, k: nat)
    requires
        fits(config, payload.len()),
        k <= frame(config, payload).len(),
    ensures
        missing(config, frame(config, payload).take(k as int)) <= frame(config, payload).len() - k,
        complete(config, frame(config, payload).take(k as int)) <==> k == frame(
            config,
            payload,
        ).len(),
        k == frame(config, payload).len() ==> payload_of(
            config,
            frame(config, payload).take(k as int),
        ) == payload,
{
    let wire = frame(config, payload);
    let width = config.size.width();
    let got = wire.take(k as int);
    lemma_prefix_round_trip(config, payload.len());
    if k >= width {
        assert(got.take(width as int) =~= crate::frame::length_prefix(config, payload.len()));
        assert(announced(config, got) == payload.len());
        if k == wire.len() {
            assert(got =~= wire);
            assert(payload_of(config, got) =~= payload);
        }
    }
}

/// What became of one read.
#[derive(Debug, PartialEq, Eq)]
pub enum Progress {
    /// The frame in progress is still short: read again.
    Pending,
    /// A frame is whole; this is its payload.
    Message(Vec<u8>),
    /// The peer closed between two frames.
    Closed,
    /// The peer closed inside a frame.
    Truncated,
}

impl View for Progress {
    type V = Delivery;

    open spec fn view(&self) -> Delivery {
        match self {
            Progress::Pending => Delivery::Pending,
            Progress::Message(payload) => Delivery::Message(payload@),
            Progress::Closed => Delivery::Closed,
            Progress::Truncated => Delivery::Truncated,
        }
    }
}

/// What a [`FrameReader`] is, to its callers.
pub struct ReaderState {
    /// The framing in force.
    pub config: IrisNetworkConfig,
    /// The bytes of the frame in progress, prefix first.
    pub received: Seq<u8>,
}

/// Accumulates the bytes of one frame at a time.
pub struct FrameReader {
    config: IrisNetworkConfig,
    buffer: Vec<u8>,
}

impl View for FrameReader {
    type V = ReaderState;

    closed spec fn view(&self) -> ReaderState {
        ReaderState { config: self.config, received: self.buffer@ }
    }
}

impl FrameReader {
    /// A reader never rests on a whole frame: it hands the payload out at once.
    #[verifier::type_invariant]
    spec fn in_progress(self) -> bool {
        missing(self.config, self.buffer@) > 0
    }

    /// A reader at a frame boundary.
    pub fn new(config: IrisNetworkConfig) -> (reader: FrameReader)
        ensures
            reader@.config == config,
            reader@.received == Seq::<u8>::empty(),
    {
        FrameReader { config, buffer: Vec::new() }
    }

    /// The framing in force.
    pub fn config(&self) -> (config: IrisNetworkConfig)
        ensures
            config == self@.config,
    {
        self.config
    }

    /// Whether no byte of a next frame has arrived yet.
    pub fn at_boundary(&self) -> (b: bool)
        ensures
            b == (self@.received.len() == 0),
    {
        self.buffer.len() == 0
    }

    /// The number of bytes to ask the stream for: what the frame in progress
    /// still misses, or the largest `usize` where that is more.
    pub fn wanted(&self) -> (n: usize)
        ensures
            n > 0,
            n == request_size(missing(self@.config, self@.received)),
    {
        proof {
            use_type_invariant(self);
        }
        let width = self.config.size.prefix_len();
        let have = self.buffer.len();
        if have < width {
            width - have
        } else {
            let prefix = slice_subrange(self.buffer.as_slice(), 0, width);
            let total = decode_length(self.config, prefix);
            let rest = total - (have - width) as u64;
            if rest > usize::MAX as u64 {
                usize::MAX
            } else {
                rest as usize
            }
        }
    }

    /// Takes in what one read returned.
    ///
    /// `chunk` is what the stream gave; an empty `chunk` says that the peer
    /// has closed. The chunk must end where the frame in progress ends, or
    /// before: one that was read by asking for at most
    /// [`wanted`](Self::wanted) bytes does. A whole frame is handed out and
    /// the reader stands at the boundary again; a close leaves the reader as
    /// it was.
    pub fn accept(&mut self, chunk: &[u8]) -> (progress: Progress)
        requires
            within_frame(old(self)@.config, old(self)@.received + chunk@),
        ensures
            progress@ == deliver(old(self)@.config, old(self)@.received, chunk@),
            final(self)@.received == retained(old(self)@.config, old(self)@.received, chunk@),
            final(self)@.config == old(self)@.config,
    {
        proof {
            use_type_invariant(&*self);
        }
        if chunk.len() == 0 {
            return if self.buffer.len() == 0 {
                Progress::Closed
            } else {
                Progress::Truncated
            };
        }
        let ghost before = self.buffer@;
        let width = self.config.size.prefix_len();
        let mut buffer: Vec<u8> = Vec::new();
        core::mem::swap(&mut buffer, &mut self.buffer);
        buffer.extend_from_slice(chunk);
        assert(buffer@ =~= before + chunk@);
        if buffer.len() < width {
            self.buffer = buffer;
            return Progress::Pending;
        }
        assert(before.len() >= width ==> buffer@.take(width as int) =~= before.take(width as int));
        let prefix = slice_subrange(buffer.as_slice(), 0, width);
        let total = decode_length(self.config, prefix);
        if ((buffer.len() - width) as u64) < total {
            self.buffer = buffer;
            Progress::Pending
        } else {
            let payload = buffer.split_off(width);
            Progress::Message(payload)
        }
    }
}

} // verus!
