//! The read-loop state machine.
//!
//! A single task owns the loop: it requests the next frame from the
//! external decoder and dispatches the entries of each list response.
//! The decisions live here, as one verified transition per decoder
//! outcome; the unverified shell performs the blocking read and hands
//! the outcome back as a [`ReadEvent`].
//!
//! Failure isolation: a malformed frame or a rejected entry never
//! affects anything else — the loop stays `Running` and the sink keeps
//! every previously applied value. Only a transport-level failure is
//! fatal, and even then no gauge moves: state simply stops advancing.

use crate::catalog::Catalog;
use crate::catalog::Obi;
use crate::dispatch::lemma_process_preserves_dom;
use crate::dispatch::process;
use crate::dispatch::spec_process;
use crate::model::DecodedEntry;
use crate::model::Frame;
use crate::sink::MetricSink;
use vstd::prelude::*;

verus! {

/// The loop's state: `Stopped` is terminal; restart policy belongs to
/// an external supervisor.
#[derive(Clone, Copy, Debug, PartialEq, Eq, Structural)]
pub enum LoopState {
    Running,
    Stopped,
}

/// One outcome of asking the decoder for the next frame.
#[derive(Debug)]
pub enum ReadEvent {
    /// A frame was decoded.
    Decoded(Frame),
    /// A single malformed frame; recoverable, the frame is discarded.
    FrameDecodeError,
    /// A transport-level failure; fatal to the loop.
    TransportError,
}

/// The loop state after one transition.
pub open spec fn spec_step_state(state: LoopState, event: ReadEvent) -> LoopState {
    match state {
        LoopState::Stopped => LoopState::Stopped,
        LoopState::Running => match event {
            ReadEvent::TransportError => LoopState::Stopped,
            _ => LoopState::Running,
        },
    }
}

/// The sink map after dispatching a sequence of entries in order, each
/// independently of its siblings.
pub open spec fn spec_dispatch_all(
    cat: Seq<Obi>,
    m: Map<Seq<char>, i64>,
    es: Seq<DecodedEntry>,
) -> Map<Seq<char>, i64>
    decreases es.len(),
{
    if es.len() == 0 {
        m
    } else {
        spec_dispatch_all(
            cat,
            spec_process(cat, m, es[0].identifier@, es[0].value),
            es.subrange(1, es.len() as int),
        )
    }
}

/// The sink map after one transition: only a list response received in
/// the `Running` state moves any gauge.
pub open spec fn spec_step_sink(
    cat: Seq<Obi>,
    m: Map<Seq<char>, i64>,
    state: LoopState,
    event: ReadEvent,
) -> Map<Seq<char>, i64> {
    match (state, event) {
        (LoopState::Running, ReadEvent::Decoded(Frame::ListResponse(es))) => spec_dispatch_all(
            cat,
            m,
            es@,
        ),
        _ => m,
    }
}

/// Dispatching one more entry after a sequence equals dispatching the
/// sequence and then the entry.
pub proof fn lemma_dispatch_all_snoc(
    cat: Seq<Obi>,
    m: Map<Seq<char>, i64>,
    es: Seq<DecodedEntry>,
    e: DecodedEntry,
)
    ensures
        spec_dispatch_all(cat, m, es.push(e)) == spec_process(
            cat,
            spec_dispatch_all(cat, m, es),
            e.identifier@,
            e.value,
        ),
    decreases es.len(),
{
    reveal_with_fuel(spec_dispatch_all, 3);
    if es.len() == 0 {
        assert(es.push(e)[0] == e);
        assert(es.push(e).subrange(1, 1) =~= Seq::<DecodedEntry>::empty());
    } else {
        let m1 = spec_process(cat, m, es[0].identifier@, es[0].value);
        lemma_dispatch_all_snoc(cat, m1, es.subrange(1, es.len() as int), e);
        assert(es.push(e)[0] == es[0]);
        assert(es.push(e).subrange(1, es.len() as int + 1) =~= es.subrange(
            1,
            es.len() as int,
        ).push(e));
    }
}

/// Dispatching any sequence of entries never registers or drops a gauge.
pub proof fn lemma_dispatch_all_preserves_dom(
    cat: Seq<Obi>,
    m: Map<Seq<char>, i64>,
    es: Seq<DecodedEntry>,
)
    ensures
        spec_dispatch_all(cat, m, es).dom() == m.dom(),
    decreases es.len(),
{
    if es.len() > 0 {
        let m1 = spec_process(cat, m, es[0].identifier@, es[0].value);
        lemma_process_preserves_dom(cat, m, es[0].identifier@, es[0].value);
        lemma_dispatch_all_preserves_dom(cat, m1, es.subrange(1, es.len() as int));
    }
}

/// Performs one transition of the read loop.
///
/// On a list response received while `Running`, every entry is handed
/// to the dispatcher in decoder-supplied order; any other event leaves
/// the sink untouched. A `TransportError` stops the loop for good, and
/// every previously set gauge keeps its last value.
pub fn step(catalog: &Catalog, sink: &mut MetricSink, state: LoopState, event: ReadEvent) -> (next:
    LoopState)
    ensures
        next == spec_step_state(state, event),
        final(sink)@ == spec_step_sink(catalog@, old(sink)@, state, event),
        final(sink)@.dom() == old(sink)@.dom(),
        event is TransportError ==> final(sink)@ == old(sink)@,
        state is Stopped ==> next is Stopped && final(sink)@ == old(sink)@,
{
    let next = match state {
        LoopState::Stopped => LoopState::Stopped,
        LoopState::Running => match event {
            ReadEvent::TransportError => LoopState::Stopped,
            ReadEvent::FrameDecodeError => LoopState::Running,
            ReadEvent::Decoded(frame) => {
                match frame {
                    Frame::Other => {},
                    Frame::ListResponse(entries) => {
                        let n = entries.len();
                        let mut i: usize = 0;
                        while i < n
                            invariant
                                n == entries@.len(),
                                i <= n,
                                sink@ == spec_dispatch_all(
                                    catalog@,
                                    old(sink)@,
                                    entries@.take(i as int),
                                ),
                            decreases n - i,
                        {
                            let e = &entries[i];
                            process(catalog, sink, &e.identifier, &e.value, e.unit);
                            proof {
                                lemma_dispatch_all_snoc(
                                    catalog@,
                                    old(sink)@,
                                    entries@.take(i as int),
                                    entries@[i as int],
                                );
                                assert(entries@.take(i as int).push(entries@[i as int])
                                    =~= entries@.take(i as int + 1));
                            }
                            i += 1;
                        }
                        proof {
                            assert(entries@.take(n as int) =~= entries@);
                        }
                    },
                }
                LoopState::Running
            },
        },
    };
    proof {
        lemma_dispatch_all_preserves_dom_for_event(catalog@, old(sink)@, state, event);
    }
    next
}

/// Helper for `step`: the key set is preserved whatever the event.
proof fn lemma_dispatch_all_preserves_dom_for_event(
    cat: Seq<Obi>,
    m: Map<Seq<char>, i64>,
    state: LoopState,
    event: ReadEvent,
)
    ensures
        spec_step_sink(cat, m, state, event).dom() == m.dom(),
{
    match (state, event) {
        (LoopState::Running, ReadEvent::Decoded(Frame::ListResponse(es))) => {
            lemma_dispatch_all_preserves_dom(cat, m, es@);
        },
        _ => {},
    }
}

} // verus!
