//! What a reader concludes from a byte stream, whatever the stream's manners.
//!
//! A stream is modelled by the bytes it still holds and by a limit on each
//! read to come. A read gives bytes from the front of the stream: never more
//! than the limit, never more than were asked for, never more than are left.
//! When nothing is left the peer has closed, and a read gives nothing.
//!
//! The laws of this module say that the limits do not matter: a frame sent is
//! a message received, however the stream cuts it up, and a stream that ends
//! early is told apart from one that ends on a frame boundary.

use crate::config::IrisNetworkConfig;
use crate::frame::{fits, frame, lemma_bytes_len, lemma_prefix_round_trip};
use crate::reader::{
    deliver, lemma_missing_within_frame, lemma_wanted_stays_within_frame, missing, request_size,
    retained, within_frame, Delivery,
};
use vstd::prelude::*;

verus! {

/// The bytes that one read gives to a reader that holds `received`, from a
/// stream that holds `wire` and lets at most `limit` bytes through at once.
pub open spec fn next_chunk(
    config: IrisNetworkConfig,
    received: Seq<u8>,
    wire: Seq<u8>,
    limit: nat,
) -> Seq<u8> {
    let asked = request_size(missing(config, received)) as nat;
    let granted = if limit < asked {
        limit
    } else {
        asked
    };
    if granted < wire.len() {
        wire.take(granted as int)
    } else {
        wire
    }
}

/// What a reader that holds `received` concludes from a stream that holds
/// `wire` and then ends, when the reads to come are limited to `limits`, one
/// after another.
///
/// The reader reads until a read concludes something. It is
/// [`Delivery::Pending`] only if the limits run out first.
pub open spec fn receive(
    config: IrisNetworkConfig,
    received: Seq<u8>,
    wire: Seq<u8>,
    limits: Seq<nat>,
) -> Delivery
    decreases limits.len(),
{
    if limits.len() == 0 {
        Delivery::Pending
    } else {
        let chunk = next_chunk(config, received, wire, limits[0]);
        match deliver(config, received, chunk) {
            Delivery::Pending => receive(
                config,
                retained(config, received, chunk),
                wire.skip(chunk.len() as int),
                limits.drop_first(),
            ),
            outcome => outcome,
        }
    }
}

/// Whether every read lets at least one byte through.
pub open spec fn all_positive(limits: Seq<nat>) -> bool {
    forall|i: int| 0 <= i < limits.len() ==> limits[i] >= 1
}

/// Reads that each let a byte through still do so after the first of them.
pub proof fn lemma_positive_rest(limits: Seq<nat>)
    requires
        all_positive(limits),
        limits.len() > 0,
    ensures
        all_positive(limits.drop_first()),
{
    assert forall|i: int| 0 <= i < limits.drop_first().len() implies limits.drop_first()[i]
        >= 1 by {
        assert(limits.drop_first()[i] == limits[i + 1]);
    }
}

/// Whatever a stream gives to a reader in the middle of a frame ends where
/// that frame ends, or before: a reader can always take it in.
pub proof fn lemma_chunk_within_frame(
    config: IrisNetworkConfig,
    received: Seq<u8>,
    wire: Seq<u8>,
    limit: nat,
)
    requires
        missing(config, received) > 0,
    ensures
        next_chunk(config, received, wire, limit).len() <= missing(config, received),
        within_frame(config, received + next_chunk(config, received, wire, limit)),
{
    lemma_wanted_stays_within_frame(
        config,
        received,
        next_chunk(config, received, wire, limit),
    );
}

/// A reader at a frame boundary that is given a whole frame at once hands
/// out the payload that was framed, and stands at the boundary again.
pub proof fn lemma_round_trip(config: IrisNetworkConfig, payload: Seq<u8>)
    requires
        fits(config, payload.len()),
    ensures
        frame(config, payload).len() == config.size.width() + payload.len(),
        within_frame(config, Seq::<u8>::empty() + frame(config, payload)),
        deliver(config, Seq::empty(), frame(config, payload)) == Delivery::Message(payload),
        retained(config, Seq::empty(), frame(config, payload)) == Seq::<u8>::empty(),
{
    let wire = frame(config, payload);
    lemma_prefix_round_trip(config, payload.len());
    lemma_missing_within_frame(config, payload, wire.len());
    assert(wire.take(wire.len() as int) =~= wire);
    assert(Seq::<u8>::empty() + wire =~= wire);
}

/// A reader in the middle of a frame, on a stream that holds the rest of it,
/// receives the payload.
proof fn lemma_rest_of_frame(
    config: IrisNetworkConfig,
    payload: Seq<u8>,
    k: nat,
    limits: Seq<nat>,
)
    requires
        fits(config, payload.len()),
        k < frame(config, payload).len(),
        limits.len() >= frame(config, payload).len() - k,
        all_positive(limits),
    ensures
        receive(
            config,
            frame(config, payload).take(k as int),
            frame(config, payload).skip(k as int),
            limits,
        ) == Delivery::Message(payload),
    decreases limits.len(),
{
    let wire = frame(config, payload);
    let received = wire.take(k as int);
    let rest = wire.skip(k as int);
    let chunk = next_chunk(config, received, rest, limits[0]);
    let n = chunk.len();
    lemma_missing_within_frame(config, payload, k);
    assert(limits[0] >= 1);
    assert(1 <= n <= missing(config, received));
    assert(received + chunk =~= wire.take((k + n) as int));
    assert(rest.skip(n as int) =~= wire.skip((k + n) as int));
    lemma_missing_within_frame(config, payload, k + n);
    if k + n < wire.len() {
        lemma_positive_rest(limits);
        lemma_rest_of_frame(config, payload, k + n, limits.drop_first());
    }
}

/// A frame is received as the message that was sent, however few bytes each
/// read lets through, as long as each lets through at least one and there
/// are reads enough for every byte.
pub proof fn lemma_chunked_delivery(config: IrisNetworkConfig, payload: Seq<u8>, limits: Seq<nat>)
    requires
        fits(config, payload.len()),
        limits.len() >= frame(config, payload).len(),
        all_positive(limits),
    ensures
        receive(config, Seq::empty(), frame(config, payload), limits) == Delivery::Message(payload),
{
    let wire = frame(config, payload);
    lemma_bytes_len(payload.len(), config.size.width());
    assert(wire.take(0) =~= Seq::<u8>::empty());
    assert(wire.skip(0) =~= wire);
    lemma_rest_of_frame(config, payload, 0, limits);
}

/// A reader at a frame boundary, on a stream that ends there, sees an
/// orderly close at its first read.
pub proof fn lemma_close_between_frames(config: IrisNetworkConfig, limits: Seq<nat>)
    requires
        limits.len() >= 1,
    ensures
        receive(config, Seq::empty(), Seq::empty(), limits) == Delivery::Closed,
{
    let chunk = next_chunk(config, Seq::empty(), Seq::empty(), limits[0]);
    assert(chunk.len() == 0);
}

/// A reader in the middle of a frame, on a stream that ends before the
/// frame does, sees the frame cut short.
proof fn lemma_rest_cut_short(
    config: IrisNetworkConfig,
    payload: Seq<u8>,
    k: nat,
    cut: nat,
    limits: Seq<nat>,
)
    requires
        fits(config, payload.len()),
        k <= cut < frame(config, payload).len(),
        0 < cut,
        limits.len() > cut - k,
        all_positive(limits),
    ensures
        receive(
            config,
            frame(config, payload).take(k as int),
            frame(config, payload).subrange(k as int, cut as int),
            limits,
        ) == Delivery::Truncated,
    decreases limits.len(),
{
    let wire = frame(config, payload);
    let received = wire.take(k as int);
    let rest = wire.subrange(k as int, cut as int);
    let chunk = next_chunk(config, received, rest, limits[0]);
    let n = chunk.len();
    lemma_missing_within_frame(config, payload, k);
    if k < cut {
        assert(limits[0] >= 1);
        assert(1 <= n <= cut - k);
        assert(received + chunk =~= wire.take((k + n) as int));
        assert(rest.skip(n as int) =~= wire.subrange((k + n) as int, cut as int));
        lemma_missing_within_frame(config, payload, k + n);
        lemma_positive_rest(limits);
        lemma_rest_cut_short(config, payload, k + n, cut, limits.drop_first());
    } else {
        assert(n == 0);
    }
}

/// A stream that ends after some but not all bytes of a frame, in the prefix
/// or in the payload, is seen as cut short and never as an orderly close, as
/// long as each read lets through at least one byte and there is one read
/// more than bytes.
pub proof fn lemma_close_inside_frame(
    config: IrisNetworkConfig,
    payload: Seq<u8>,
    cut: nat,
    limits: Seq<nat>,
)
    requires
        fits(config, payload.len()),
        0 < cut < frame(config, payload).len(),
        limits.len() > cut,
        all_positive(limits),
    ensures
        receive(config, Seq::empty(), frame(config, payload).take(cut as int), limits)
            == Delivery::Truncated,
{
    let wire = frame(config, payload);
    assert(wire.take(0) =~= Seq::<u8>::empty());
    assert(wire.subrange(0, cut as int) =~= wire.take(cut as int));
    lemma_rest_cut_short(config, payload, 0, cut, limits);
}

} // verus!
