//! The worker: one background task owning one sink.
//!
//! The worker consumes the appender's events in order. A `Log` event's
//! bytes are decoded as UTF-8 text — an undecodable payload is silently
//! discarded — then the path-marker rewrite is applied and the result is
//! written to the sink. A `Terminate` event stops the worker at once,
//! without draining what is still queued, and the stopped state is
//! absorbing: no event is read and no byte is written after it.
//!
//! The functions here are the worker's decisions; whoever runs the real
//! loop performs one sink write per `Write` action and stops on `Exit`.

use vstd::prelude::*;

use crate::event::AsyncEvent;
use crate::rewrite::rewrite_path_markers;
use crate::rewrite::rewrite_spec;
use crate::sink::SinkKind;
use crate::sink::SinkModel;
use crate::sink::frame_spec;
use crate::utf8::is_valid_utf8;
use crate::utf8::valid_utf8;

verus! {

/// What becomes of one queued payload: the rewritten text if the bytes
/// decode, nothing if they do not.
pub open spec fn process_spec(payload: Seq<u8>) -> Option<Seq<u8>> {
    if valid_utf8(payload) {
        Some(rewrite_spec(payload))
    } else {
        None
    }
}

/// Decodes and rewrites one queued payload; an undecodable payload is
/// dropped.
pub fn process_payload(msg: &Vec<u8>) -> (r: Option<Vec<u8>>)
    ensures
        match r {
            Some(p) => process_spec(msg@) == Some(p@),
            None => process_spec(msg@) is None,
        },
{
    if is_valid_utf8(msg) {
        Some(rewrite_path_markers(msg))
    } else {
        None
    }
}

/// The worker's two states; `Terminated` is absorbing.
#[derive(Clone, Copy, PartialEq, Eq, Structural, Debug)]
pub enum WorkerState {
    /// The worker reads and handles events.
    Running,
    /// The worker has seen the terminate signal and reads nothing more.
    Terminated,
}

/// What the worker does with one event.
pub enum WorkerAction {
    /// Write these bytes to the sink, whole.
    Write(Vec<u8>),
    /// Write nothing; the event was discarded.
    Discard,
    /// Stop the loop; nothing is written, now or later.
    Exit,
}

/// One step of the worker's state machine: the next state, and the action
/// the loop must perform for this event.
pub fn worker_step(state: WorkerState, event: AsyncEvent) -> (r: (WorkerState, WorkerAction))
    ensures
        state is Terminated ==> r.0 is Terminated && r.1 is Discard,
        state is Running && event is Terminate ==> r.0 is Terminated && r.1 is Exit,
        state is Running && event is Log ==> r.0 is Running && (match process_spec(
            event.payload(),
        ) {
            Some(p) => r.1 matches WorkerAction::Write(w) && w@ == p,
            None => r.1 is Discard,
        }),
{
    match state {
        WorkerState::Terminated => (WorkerState::Terminated, WorkerAction::Discard),
        WorkerState::Running => match event {
            AsyncEvent::Terminate => (WorkerState::Terminated, WorkerAction::Exit),
            AsyncEvent::Log(msg) => match process_payload(&msg) {
                Some(p) => (WorkerState::Running, WorkerAction::Write(p)),
                None => (WorkerState::Running, WorkerAction::Discard),
            },
        },
    }
}

/// The payloads the worker writes for a queue of events, in order: the
/// processed image of every decodable `Log` event before the first
/// `Terminate`, and nothing at or after it.
pub open spec fn worker_writes(events: Seq<AsyncEvent>) -> Seq<Seq<u8>>
    decreases events.len(),
{
    if events.len() == 0 {
        Seq::empty()
    } else {
        match events[0] {
            AsyncEvent::Terminate => Seq::empty(),
            AsyncEvent::Log(m) => match process_spec(m@) {
                Some(p) => Seq::empty().push(p) + worker_writes(events.drop_first()),
                None => worker_writes(events.drop_first()),
            },
        }
    }
}

/// True if the queue holds a terminate signal.
pub open spec fn has_terminate(events: Seq<AsyncEvent>) -> bool {
    exists|i: int| 0 <= i < events.len() && events[i] is Terminate
}

/// True of an event the worker will write: a `Log` whose payload decodes.
pub open spec fn is_written_event(e: AsyncEvent) -> bool {
    e is Log && process_spec(e.payload()) is Some
}

/// How many of the first `i` events the worker writes.
pub open spec fn accepted_before(events: Seq<AsyncEvent>, i: int) -> int
    decreases i,
{
    if i <= 0 {
        0
    } else {
        accepted_before(events, i - 1) + (if is_written_event(events[i - 1]) {
            1int
        } else {
            0int
        })
    }
}

/// The bytes a `kind` sink receives for a sequence of written payloads.
pub open spec fn wire_bytes(kind: SinkKind, writes: Seq<Seq<u8>>) -> Seq<u8>
    decreases writes.len(),
{
    if writes.len() == 0 {
        Seq::empty()
    } else {
        frame_spec(kind, writes[0]) + wire_bytes(kind, writes.drop_first())
    }
}

proof fn lemma_worker_writes_snoc(events: Seq<AsyncEvent>, e: AsyncEvent)
    requires
        forall|j: int| 0 <= j < events.len() ==> !(events[j] is Terminate),
    ensures
        worker_writes(events.push(e)) == (match e {
            AsyncEvent::Terminate => worker_writes(events),
            AsyncEvent::Log(m) => match process_spec(m@) {
                Some(p) => worker_writes(events).push(p),
                None => worker_writes(events),
            },
        }),
    decreases events.len(),
{
    if events.len() == 0 {
        assert(events.push(e).drop_first() =~= events);
        match e {
            AsyncEvent::Terminate => {},
            AsyncEvent::Log(m) => {
                match process_spec(m@) {
                    Some(p) => {
                        assert(Seq::empty().push(p) + Seq::<Seq<u8>>::empty() =~= worker_writes(
                            events,
                        ).push(p));
                    },
                    None => {},
                }
            },
        }
    } else {
        assert(events.push(e).drop_first() =~= events.drop_first().push(e));
        assert(forall|j: int|
            0 <= j < events.drop_first().len() ==> !(events.drop_first()[j] is Terminate));
        lemma_worker_writes_snoc(events.drop_first(), e);
        match events[0] {
            AsyncEvent::Terminate => {},
            AsyncEvent::Log(m0) => {
                match process_spec(m0@) {
                    Some(p0) => {
                        match e {
                            AsyncEvent::Terminate => {},
                            AsyncEvent::Log(m) => {
                                match process_spec(m@) {
                                    Some(p) => {
                                        assert(Seq::empty().push(p0) + worker_writes(
                                            events.drop_first(),
                                        ).push(p) =~= (Seq::empty().push(p0) + worker_writes(
                                            events.drop_first(),
                                        )).push(p));
                                    },
                                    None => {},
                                }
                            },
                        }
                    },
                    None => {},
                }
            },
        }
    }
}

proof fn lemma_wire_snoc(kind: SinkKind, writes: Seq<Seq<u8>>, p: Seq<u8>)
    ensures
        wire_bytes(kind, writes.push(p)) == wire_bytes(kind, writes) + frame_spec(kind, p),
    decreases writes.len(),
{
    if writes.len() == 0 {
        assert(writes.push(p).drop_first() =~= writes);
        assert(frame_spec(kind, p) + Seq::<u8>::empty() =~= frame_spec(kind, p));
        assert(Seq::<u8>::empty() + frame_spec(kind, p) =~= frame_spec(kind, p));
    } else {
        assert(writes.push(p).drop_first() =~= writes.drop_first().push(p));
        lemma_wire_snoc(kind, writes.drop_first(), p);
        assert(frame_spec(kind, writes[0]) + (wire_bytes(kind, writes.drop_first()) + frame_spec(
            kind,
            p,
        )) =~= (frame_spec(kind, writes[0]) + wire_bytes(kind, writes.drop_first())) + frame_spec(
            kind,
            p,
        ));
    }
}

proof fn lemma_worker_writes_stops(events: Seq<AsyncEvent>, c: int)
    requires
        0 <= c < events.len(),
        events[c] is Terminate,
        forall|j: int| 0 <= j < c ==> !(events[j] is Terminate),
    ensures
        worker_writes(events) == worker_writes(events.take(c)),
    decreases c,
{
    if c == 0 {
    } else {
        assert(events.take(c).drop_first() =~= events.drop_first().take(c - 1));
        assert(events.drop_first()[c - 1] is Terminate);
        assert(forall|j: int| 0 <= j < c - 1 ==> !(events.drop_first()[j] is Terminate));
        lemma_worker_writes_stops(events.drop_first(), c - 1);
    }
}

/// Runs the worker over a queue of events against a sink: the sink
/// receives exactly the framed, processed payloads of the decodable `Log`
/// events before the first `Terminate`, in submission order, and the
/// worker ends `Terminated` exactly when the queue held a terminate
/// signal.
pub fn run_worker(events: Vec<AsyncEvent>, sink: &mut SinkModel) -> (r: WorkerState)
    ensures
        final(sink).kind == old(sink).kind,
        final(sink).data@ == old(sink).data@ + wire_bytes(
            old(sink).kind,
            worker_writes(events@),
        ),
        (r is Terminated) <==> has_terminate(events@),
{
    let ghost orig = events@;
    let ghost base = sink.data@;
    let ghost kind0 = sink.kind;
    let ghost mut c: int = 0;
    let mut evs = events;
    let mut state = WorkerState::Running;
    while matches!(state, WorkerState::Running) && evs.len() > 0
        invariant
            sink.kind == kind0,
            state is Running ==> {
                &&& 0 <= c <= orig.len()
                &&& evs@ == orig.subrange(c, orig.len() as int)
                &&& forall|j: int| 0 <= j < c ==> !(orig[j] is Terminate)
                &&& sink.data@ == base + wire_bytes(kind0, worker_writes(orig.take(c)))
            },
            state is Terminated ==> {
                &&& sink.data@ == base + wire_bytes(kind0, worker_writes(orig))
                &&& has_terminate(orig)
            },
        decreases evs.len(),
    {
        let e = evs.remove(0);
        proof {
            assert(e == orig[c]);
            assert(evs@ =~= orig.subrange(c + 1, orig.len() as int));
            assert(orig.take(c + 1) =~= orig.take(c).push(orig[c]));
            lemma_worker_writes_snoc(orig.take(c), orig[c]);
        }
        match e {
            AsyncEvent::Terminate => {
                proof {
                    lemma_worker_writes_stops(orig, c);
                    assert(orig[c] is Terminate);
                }
                state = WorkerState::Terminated;
            },
            AsyncEvent::Log(msg) => {
                match process_payload(&msg) {
                    Some(p) => {
                        proof {
                            lemma_wire_snoc(kind0, worker_writes(orig.take(c)), p@);
                        }
                        sink.write(&p);
                        proof {
                            assert(base + wire_bytes(kind0, worker_writes(orig.take(c)))
                                + frame_spec(kind0, p@) =~= base + wire_bytes(
                                kind0,
                                worker_writes(orig.take(c + 1)),
                            ));
                        }
                    },
                    None => {},
                }
                proof {
                    c = c + 1;
                }
            },
        }
    }
    proof {
        if state is Running {
            assert(evs@.len() == 0);
            assert(c == orig.len());
            assert(orig.take(c) =~= orig);
        }
    }
    state
}

/// Every record accepted before teardown is written, or lost only because
/// its payload does not decode — and records keep their submission order:
/// the `i`-th event, a decodable `Log` submitted while no terminate signal
/// stood before it, appears in the worker's writes exactly at the position
/// given by the count of decodable `Log` events before it.
pub proof fn lemma_records_written_in_order(events: Seq<AsyncEvent>, i: int)
    requires
        0 <= i < events.len(),
        forall|j: int| 0 <= j < i ==> !(events[j] is Terminate),
        is_written_event(events[i]),
    ensures
        0 <= accepted_before(events, i) < worker_writes(events).len(),
        process_spec(events[i].payload()) matches Some(p) && worker_writes(events)[accepted_before(
            events,
            i,
        )] == p,
    decreases i,
{
    lemma_accepted_before_nonneg(events, i);
    if i == 0 {
        match events[0] {
            AsyncEvent::Terminate => {},
            AsyncEvent::Log(m) => {},
        }
    } else {
        let rest = events.drop_first();
        assert(forall|j: int| 0 <= j < i - 1 ==> !(rest[j] is Terminate));
        assert(rest[i - 1] == events[i]);
        lemma_records_written_in_order(rest, i - 1);
        lemma_accepted_before_drop(events, i);
        match events[0] {
            AsyncEvent::Terminate => {},
            AsyncEvent::Log(m) => {},
        }
    }
}

proof fn lemma_accepted_before_nonneg(events: Seq<AsyncEvent>, i: int)
    ensures
        accepted_before(events, i) >= 0,
    decreases i,
{
    if i > 0 {
        lemma_accepted_before_nonneg(events, i - 1);
    }
}

proof fn lemma_accepted_before_drop(events: Seq<AsyncEvent>, i: int)
    requires
        1 <= i <= events.len(),
    ensures
        accepted_before(events, i) == (if is_written_event(events[0]) {
            1int
        } else {
            0int
        }) + accepted_before(events.drop_first(), i - 1),
    decreases i,
{
    if i == 1 {
        assert(accepted_before(events, 0) == 0);
        assert(accepted_before(events.drop_first(), 0) == 0);
    } else {
        lemma_accepted_before_drop(events, i - 1);
        assert(accepted_before(events, i) == accepted_before(events, i - 1) + (
        if is_written_event(events[i - 1]) {
            1int
        } else {
            0int
        }));
        assert(accepted_before(events.drop_first(), i - 1) == accepted_before(
            events.drop_first(),
            i - 2,
        ) + (if is_written_event(events.drop_first()[i - 2]) {
            1int
        } else {
            0int
        }));
        assert(events.drop_first()[i - 2] == events[i - 1]);
    }
}

/// Submission order is kept: of two records the worker writes, the one
/// submitted first stands earlier in the writes.
pub proof fn lemma_submission_order_kept(events: Seq<AsyncEvent>, i1: int, i2: int)
    requires
        0 <= i1 < i2 < events.len(),
        is_written_event(events[i1]),
    ensures
        accepted_before(events, i1) < accepted_before(events, i2),
    decreases i2,
{
    if i2 == i1 + 1 {
    } else {
        lemma_submission_order_kept(events, i1, i2 - 1);
        lemma_accepted_before_nonneg(events, i2 - 1);
    }
}

/// Teardown always completes: sending the terminate signal after any
/// queue, pending records or none, stops the worker, and what it writes is
/// what the queue alone called for.
pub proof fn lemma_teardown_completes(events: Seq<AsyncEvent>)
    ensures
        has_terminate(events.push(AsyncEvent::Terminate)),
        worker_writes(events.push(AsyncEvent::Terminate)) == worker_writes(events),
    decreases events.len(),
{
    let all = events.push(AsyncEvent::Terminate);
    assert(all[events.len() as int] is Terminate);
    if events.len() == 0 {
    } else {
        assert(all.drop_first() =~= events.drop_first().push(AsyncEvent::Terminate));
        lemma_teardown_completes(events.drop_first());
    }
}

/// After the terminate signal nothing more is ever written: events behind
/// a queue that holds a terminate signal never reach the sink.
pub proof fn lemma_no_writes_after_teardown(events: Seq<AsyncEvent>, extra: Seq<AsyncEvent>)
    requires
        has_terminate(events),
    ensures
        worker_writes(events + extra) == worker_writes(events),
    decreases events.len(),
{
    let t = choose|i: int| 0 <= i < events.len() && events[i] is Terminate;
    if events[0] is Terminate {
        assert((events + extra)[0] is Terminate);
    } else {
        assert((events + extra)[0] == events[0]);
        assert((events + extra).drop_first() =~= events.drop_first() + extra);
        assert(events.drop_first()[t - 1] is Terminate);
        assert(has_terminate(events.drop_first()));
        lemma_no_writes_after_teardown(events.drop_first(), extra);
    }
}

} // verus!
