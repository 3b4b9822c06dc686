//! What a served connection writes.
//!
//! A connection is served by a loop around
//! [`worker_step`](crate::server::worker_step): read when told to read, call
//! the handler when told to handle, write when told to write, stop when told
//! to close. [`run`] is that loop, with the stream of
//! [`stream`](crate::stream) for the reads and a function on payloads for the
//! codec and the handler together.
//!
//! The law of this module is the handler's contract: it is called once for
//! each message, in the order of arrival, and what it returns is what the
//! peer reads next.

use crate::config::IrisNetworkConfig;
use crate::error::NetError;
use crate::frame::{fits, frame, lemma_bytes_len};
use crate::handler::{HandlerState, Role};
use crate::reader::{deliver, lemma_missing_within_frame, Delivery};
use crate::server::{worker_plan, worker_state, WorkerPlan, WorkerReport};
use crate::stream::{all_positive, lemma_positive_rest, next_chunk};
use vstd::prelude::*;

verus! {

/// The bytes that carry `messages` over the wire, one frame after another.
pub open spec fn wire_of(config: IrisNetworkConfig, messages: Seq<Seq<u8>>) -> Seq<u8>
    decreases messages.len(),
{
    if messages.len() == 0 {
        Seq::empty()
    } else {
        frame(config, messages[0]) + wire_of(config, messages.drop_first())
    }
}

/// How a worker's run ended.
pub enum Ending {
    /// The worker was still at work when the reads ran out.
    Unfinished,
    /// The worker closed the connection, with this failure to report or with
    /// none.
    Closed(Option<NetError>),
}

/// What came of serving a connection.
pub struct Served {
    /// Everything the worker wrote, in order.
    pub written: Seq<u8>,
    /// How the worker ended.
    pub end: Ending,
}

/// How far a report stands from the next read in a worker's cycle of
/// reading, answering and writing.
pub open spec fn steps_to_read(report: WorkerReport) -> nat {
    match report {
        WorkerReport::Sent => 1,
        WorkerReport::Reply(_) => 2,
        _ => 3,
    }
}

/// A worker's run from `report` on, on a connection in state `state`, over a
/// stream that holds `inbound` and then ends, with the reads to come limited
/// to `limits`, and with `answer` turning each payload into the payload of
/// its reply.
pub open spec fn run(
    state: HandlerState,
    report: WorkerReport,
    inbound: Seq<u8>,
    limits: Seq<nat>,
    answer: spec_fn(Seq<u8>) -> Seq<u8>,
) -> Served
    decreases limits.len(), steps_to_read(report),
{
    let after = worker_state(state, report);
    match worker_plan(state, report) {
        WorkerPlan::Read(_) => {
            if limits.len() == 0 {
                Served { written: Seq::empty(), end: Ending::Unfinished }
            } else {
                let chunk = next_chunk(after.config, after.received, inbound, limits[0]);
                run(
                    after,
                    WorkerReport::Bytes(chunk),
                    inbound.skip(chunk.len() as int),
                    limits.drop_first(),
                    answer,
                )
            }
        },
        WorkerPlan::Handle(payload) => run(
            after,
            WorkerReport::Reply(answer(payload)),
            inbound,
            limits,
            answer,
        ),
        WorkerPlan::Write(wire) => {
            let later = run(after, WorkerReport::Sent, inbound, limits, answer);
            Served { written: wire + later.written, end: later.end }
        },
        WorkerPlan::Close(failure) => Served {
            written: Seq::empty(),
            end: Ending::Closed(failure),
        },
    }
}

/// Whether every request and every answer to one can be framed.
pub open spec fn all_fit(
    config: IrisNetworkConfig,
    requests: Seq<Seq<u8>>,
    answer: spec_fn(Seq<u8>) -> Seq<u8>,
) -> bool {
    forall|i: int|
        0 <= i < requests.len() ==> fits(config, (#[trigger] requests[i]).len()) && fits(
            config,
            answer(requests[i]).len(),
        )
}

/// A worker that is told to read reads once, and goes on from what came.
proof fn lemma_read(
    state: HandlerState,
    inbound: Seq<u8>,
    limits: Seq<nat>,
    answer: spec_fn(Seq<u8>) -> Seq<u8>,
)
    requires
        state.role == Role::ActiveStream,
        limits.len() >= 1,
    ensures
        run(state, WorkerReport::Start, inbound, limits, answer) == run(
            state,
            WorkerReport::Bytes(next_chunk(state.config, state.received, inbound, limits[0])),
            inbound.skip(next_chunk(state.config, state.received, inbound, limits[0]).len() as int),
            limits.drop_first(),
            answer,
        ),
{
    assert(worker_state(state, WorkerReport::Start) == state);
}

/// A worker that has read some bytes short of a whole request reads on.
proof fn lemma_read_on(
    state: HandlerState,
    chunk: Seq<u8>,
    inbound: Seq<u8>,
    limits: Seq<nat>,
    answer: spec_fn(Seq<u8>) -> Seq<u8>,
)
    requires
        state.role == Role::ActiveStream,
        deliver(state.config, state.received, chunk) == Delivery::Pending,
    ensures
        run(state, WorkerReport::Bytes(chunk), inbound, limits, answer) == run(
            HandlerState { received: state.received + chunk, ..state },
            WorkerReport::Start,
            inbound,
            limits,
            answer,
        ),
{
    let grown = HandlerState { received: state.received + chunk, ..state };
    assert(worker_state(state, WorkerReport::Bytes(chunk)) == grown);
    assert(worker_state(grown, WorkerReport::Start) == grown);
}

/// A worker that has read the last bytes of a request writes the answer as
/// a frame, and goes on from a frame boundary.
proof fn lemma_answer(
    state: HandlerState,
    chunk: Seq<u8>,
    payload: Seq<u8>,
    inbound: Seq<u8>,
    limits: Seq<nat>,
    answer: spec_fn(Seq<u8>) -> Seq<u8>,
)
    requires
        state.role == Role::ActiveStream,
        deliver(state.config, state.received, chunk) == Delivery::Message(payload),
        fits(state.config, answer(payload).len()),
    ensures
        run(state, WorkerReport::Bytes(chunk), inbound, limits, answer) == (Served {
            written: frame(state.config, answer(payload)) + run(
                HandlerState::fresh(Role::ActiveStream, state.config),
                WorkerReport::Start,
                inbound,
                limits,
                answer,
            ).written,
            end: run(
                HandlerState::fresh(Role::ActiveStream, state.config),
                WorkerReport::Start,
                inbound,
                limits,
                answer,
            ).end,
        }),
{
    let idle = HandlerState::fresh(Role::ActiveStream, state.config);
    let reply = WorkerReport::Reply(answer(payload));
    assert(worker_state(state, WorkerReport::Bytes(chunk)) == idle);
    assert(worker_plan(state, WorkerReport::Bytes(chunk)) == WorkerPlan::Handle(payload));
    assert(run(state, WorkerReport::Bytes(chunk), inbound, limits, answer) == run(
        idle,
        reply,
        inbound,
        limits,
        answer,
    ));
    assert(worker_plan(idle, reply) == WorkerPlan::Write(frame(state.config, answer(payload))));
    assert(worker_state(idle, reply) == idle);
    assert(worker_state(idle, WorkerReport::Sent) == idle);
    assert(worker_state(idle, WorkerReport::Start) == idle);
    assert(run(idle, WorkerReport::Sent, inbound, limits, answer) == run(
        idle,
        WorkerReport::Start,
        inbound,
        limits,
        answer,
    ));
}

/// A worker that stands at a frame boundary when the stream ends closes
/// without a failure and writes nothing more.
proof fn lemma_run_to_close(
    config: IrisNetworkConfig,
    limits: Seq<nat>,
    answer: spec_fn(Seq<u8>) -> Seq<u8>,
)
    requires
        limits.len() >= 1,
    ensures
        run(
            HandlerState::fresh(Role::ActiveStream, config),
            WorkerReport::Start,
            Seq::empty(),
            limits,
            answer,
        ) == (Served { written: Seq::empty(), end: Ending::Closed(None) }),
{
    let idle = HandlerState::fresh(Role::ActiveStream, config);
    let chunk = next_chunk(config, idle.received, Seq::empty(), limits[0]);
    assert(chunk.len() == 0);
    lemma_read(idle, Seq::empty(), limits, answer);
}

/// The read of a worker in the middle of a request, on a stream that holds
/// the rest of it and then further requests, gives the next bytes of that
/// request, at least one and none beyond its end.
proof fn lemma_chunk_of_request(
    config: IrisNetworkConfig,
    request: Seq<u8>,
    later: Seq<u8>,
    k: nat,
    limit: nat,
)
    requires
        fits(config, request.len()),
        k < frame(config, request).len(),
        limit >= 1,
    ensures
        ({
            let first = frame(config, request);
            let inbound = (first + later).skip(k as int);
            let chunk = next_chunk(config, first.take(k as int), inbound, limit);
            let n = chunk.len();
            &&& 1 <= n <= first.len() - k
            &&& first.take(k as int) + chunk == first.take((k + n) as int)
            &&& inbound.skip(n as int) == (first + later).skip((k + n) as int)
            &&& k + n < first.len() ==> deliver(config, first.take(k as int), chunk)
                == Delivery::Pending
            &&& k + n == first.len() ==> deliver(config, first.take(k as int), chunk)
                == Delivery::Message(request)
        }),
{
    let first = frame(config, request);
    let inbound = (first + later).skip(k as int);
    let received = first.take(k as int);
    let chunk = next_chunk(config, received, inbound, limit);
    let n = chunk.len();
    lemma_missing_within_frame(config, request, k);
    assert(1 <= n <= first.len() - k);
    assert(chunk =~= first.subrange(k as int, (k + n) as int));
    assert(received + chunk =~= first.take((k + n) as int));
    assert(inbound.skip(n as int) =~= (first + later).skip((k + n) as int));
    lemma_missing_within_frame(config, request, k + n);
}

/// A worker in the middle of a request, on a stream that holds the rest of
/// it and then further requests, answers them all in order and closes.
proof fn lemma_run_rest(
    config: IrisNetworkConfig,
    requests: Seq<Seq<u8>>,
    k: nat,
    limits: Seq<nat>,
    answer: spec_fn(Seq<u8>) -> Seq<u8>,
)
    requires
        requests.len() > 0,
        all_fit(config, requests, answer),
        k < frame(config, requests[0]).len(),
        all_positive(limits),
        limits.len() > wire_of(config, requests).len() - k,
    ensures
        run(
            HandlerState {
                role: Role::ActiveStream,
                config,
                received: frame(config, requests[0]).take(k as int),
            },
            WorkerReport::Start,
            wire_of(config, requests).skip(k as int),
            limits,
            answer,
        ) == (Served {
            written: wire_of(config, requests.map_values(answer)),
            end: Ending::Closed(None),
        }),
    decreases limits.len(),
{
    let first = frame(config, requests[0]);
    let tail = requests.drop_first();
    let tail_wire = wire_of(config, tail);
    let all = wire_of(config, requests);
    let inbound = all.skip(k as int);
    let received = first.take(k as int);
    let state = HandlerState { role: Role::ActiveStream, config, received };
    let replies = requests.map_values(answer);

    assert(all == first + tail_wire);
    assert(fits(config, requests[0].len()) && fits(config, answer(requests[0]).len()));
    assert(limits[0] >= 1);
    lemma_chunk_of_request(config, requests[0], tail_wire, k, limits[0]);

    let chunk = next_chunk(config, received, inbound, limits[0]);
    let n = chunk.len();
    let rest = inbound.skip(n as int);
    let later = limits.drop_first();
    lemma_positive_rest(limits);
    lemma_read(state, inbound, limits, answer);

    if k + n < first.len() {
        lemma_read_on(state, chunk, rest, later, answer);
        lemma_run_rest(config, requests, k + n, later, answer);
    } else {
        let idle = HandlerState::fresh(Role::ActiveStream, config);
        lemma_answer(state, chunk, requests[0], rest, later, answer);
        assert(rest =~= tail_wire);
        assert(replies.drop_first() =~= tail.map_values(answer));
        assert(replies[0] == answer(requests[0]));
        assert(wire_of(config, replies) == frame(config, replies[0]) + wire_of(
            config,
            replies.drop_first(),
        ));
        if tail.len() == 0 {
            assert(tail_wire =~= Seq::<u8>::empty());
            lemma_run_to_close(config, later, answer);
            assert(wire_of(config, replies.drop_first()) =~= Seq::<u8>::empty());
        } else {
            assert(all_fit(config, tail, answer)) by {
                assert forall|i: int| 0 <= i < tail.len() implies fits(
                    config,
                    (#[trigger] tail[i]).len(),
                ) && fits(config, answer(tail[i]).len()) by {
                    assert(tail[i] == requests[i + 1]);
                }
            }
            lemma_bytes_len(tail[0].len(), config.size.width());
            assert(frame(config, tail[0]).take(0) =~= Seq::<u8>::empty());
            assert(tail_wire.skip(0) =~= tail_wire);
            lemma_run_rest(config, tail, 0, later, answer);
        }
    }
}

/// The handler's contract: a worker on a fresh connection answers every
/// request, in the order of arrival, and then closes without a failure when
/// the peer closes after its last request. The peer reads the answers as
/// frames, one for each request, in that same order. This holds however few
/// bytes each read lets through, as long as each lets through at least one
/// and there is one read more than bytes.
pub proof fn lemma_replies_in_order(
    config: IrisNetworkConfig,
    requests: Seq<Seq<u8>>,
    limits: Seq<nat>,
    answer: spec_fn(Seq<u8>) -> Seq<u8>,
)
    requires
        all_fit(config, requests, answer),
        all_positive(limits),
        limits.len() > wire_of(config, requests).len(),
    ensures
        run(
            HandlerState::fresh(Role::ActiveStream, config),
            WorkerReport::Start,
            wire_of(config, requests),
            limits,
            answer,
        ) == (Served {
            written: wire_of(config, requests.map_values(answer)),
            end: Ending::Closed(None),
        }),
{
    let idle = HandlerState::fresh(Role::ActiveStream, config);
    if requests.len() == 0 {
        lemma_run_to_close(config, limits, answer);
        assert(requests.map_values(answer) =~= Seq::<Seq<u8>>::empty());
    } else {
        lemma_bytes_len(requests[0].len(), config.size.width());
        assert(frame(config, requests[0]).take(0) =~= Seq::<u8>::empty());
        assert(wire_of(config, requests).skip(0) =~= wire_of(config, requests));
        lemma_run_rest(config, requests, 0, limits, answer);
    }
}

} // verus!
