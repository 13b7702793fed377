use vstd::prelude::*;

use crate::error::{DecompressionError, Error};

verus! {

/// Wall-clock budget of the whole reference pipeline, in milliseconds.
pub const PERF_CHECK_TIME_LIMIT_MS: u64 = 20000;

/// Decompression ceiling used for the reference blob: one gibibyte.
pub const CODE_SIZE_LIMIT: usize = 1073741824;

/// Where the one-shot performance gate stands.
#[derive(Clone, Copy, Debug, PartialEq, Eq, Structural)]
pub enum GatePhase {
    ProbingSentinel,
    Decompressing,
    Prevalidating,
    Preparing,
    Persisting,
    Passed,
    Aborted,
}

/// What the host reports back after performing a gate action.
#[derive(Debug)]
pub enum GateEvent {
    /// Whether the sentinel marker was found beside the executable.
    SentinelProbed(bool),
    /// Outcome of decompressing the reference blob.
    Decompressed(Result<(), DecompressionError>),
    /// Outcome of prevalidating the decompressed code.
    Prevalidated(Result<(), String>),
    /// Outcome of preparing the code, with the time measured across all three stages.
    Prepared { result: Result<(), String>, elapsed_ms: u64 },
    /// Whether the sentinel marker could be written (best effort).
    SentinelWritten(bool),
}

/// What the performance gate asks the host to do next.
#[derive(Clone, Debug)]
pub enum GateAction {
    ProbeSentinel,
    Decompress { ceiling: usize },
    Prevalidate,
    Prepare,
    CreateSentinel,
    Proceed,
    Abort(Error),
    /// The event did not fit the current phase: nothing to do.
    Nothing,
}

/// The performance gate: its phase and the two bounds it was configured with.
#[derive(Clone, Copy, Debug)]
pub struct Gate {
    pub phase: GatePhase,
    pub limit_ms: u64,
    pub ceiling: usize,
}

/// Whether an action runs a stage of the reference pipeline.
pub open spec fn is_pipeline_action(a: GateAction) -> bool {
    a is Decompress || a is Prevalidate || a is Prepare
}

/// Whether the performance gate has reached an end.
pub open spec fn is_finished(p: GatePhase) -> bool {
    p is Passed || p is Aborted
}

/// One transition of the performance gate: the next gate and the action the host performs.
pub open spec fn next(g: Gate, e: GateEvent) -> (Gate, GateAction) {
    match (g.phase, e) {
        (GatePhase::ProbingSentinel, GateEvent::SentinelProbed(found)) => if found {
            (Gate { phase: GatePhase::Passed, ..g }, GateAction::Proceed)
        } else {
            (Gate { phase: GatePhase::Decompressing, ..g }, GateAction::Decompress { ceiling: g.ceiling })
        },
        (GatePhase::Decompressing, GateEvent::Decompressed(res)) => match res {
            Ok(_) => (Gate { phase: GatePhase::Prevalidating, ..g }, GateAction::Prevalidate),
            Err(k) => (Gate { phase: GatePhase::Aborted, ..g }, GateAction::Abort(Error::Decompression(k))),
        },
        (GatePhase::Prevalidating, GateEvent::Prevalidated(res)) => match res {
            Ok(_) => (Gate { phase: GatePhase::Preparing, ..g }, GateAction::Prepare),
            Err(m) => (Gate { phase: GatePhase::Aborted, ..g }, GateAction::Abort(Error::Prevalidation(m))),
        },
        (GatePhase::Preparing, GateEvent::Prepared { result, elapsed_ms }) => match result {
            Err(m) => (Gate { phase: GatePhase::Aborted, ..g }, GateAction::Abort(Error::Preparation(m))),
            Ok(_) => if elapsed_ms <= g.limit_ms {
                (Gate { phase: GatePhase::Persisting, ..g }, GateAction::CreateSentinel)
            } else {
                (
                    Gate { phase: GatePhase::Aborted, ..g },
                    GateAction::Abort(
                        Error::PerformanceBelowThreshold { elapsed_ms, limit_ms: g.limit_ms },
                    ),
                )
            },
        },
        (GatePhase::Persisting, GateEvent::SentinelWritten(_)) => (
            Gate { phase: GatePhase::Passed, ..g },
            GateAction::Proceed,
        ),
        _ => (g, GateAction::Nothing),
    }
}

/// The actions the performance gate asks for while it takes the events `evs` in order.
pub open spec fn actions(g: Gate, evs: Seq<GateEvent>) -> Seq<GateAction>
    decreases evs.len(),
{
    if evs.len() == 0 {
        Seq::empty()
    } else {
        seq![next(g, evs[0]).1] + actions(next(g, evs[0]).0, evs.drop_first())
    }
}

/// The performance gate after it has taken the events `evs` in order.
pub open spec fn after(g: Gate, evs: Seq<GateEvent>) -> Gate
    decreases evs.len(),
{
    if evs.len() == 0 {
        g
    } else {
        after(next(g, evs[0]).0, evs.drop_first())
    }
}

impl Gate {
    /// A gate that has not yet looked for the sentinel marker.
    pub open spec fn fresh(limit_ms: u64, ceiling: usize) -> Gate {
        Gate { phase: GatePhase::ProbingSentinel, limit_ms, ceiling }
    }

    /// Starts the performance gate: its first action is always to look for the sentinel.
    pub fn new(limit_ms: u64, ceiling: usize) -> (r: (Gate, GateAction))
        ensures
            r.0 == Gate::fresh(limit_ms, ceiling),
            r.1 == GateAction::ProbeSentinel,
    {
        (Gate { phase: GatePhase::ProbingSentinel, limit_ms, ceiling }, GateAction::ProbeSentinel)
    }

    /// The performance gate with the production bounds: twenty seconds, one gibibyte.
    pub fn production() -> (r: (Gate, GateAction))
        ensures
            r.0 == Gate::fresh(PERF_CHECK_TIME_LIMIT_MS, CODE_SIZE_LIMIT),
            r.1 == GateAction::ProbeSentinel,
    {
        Gate::new(PERF_CHECK_TIME_LIMIT_MS, CODE_SIZE_LIMIT)
    }

    /// Whether the performance gate has reached an end.
    pub fn is_done(&self) -> (r: bool)
        ensures
            r == is_finished(self.phase),
    {
        match self.phase {
            GatePhase::Passed | GatePhase::Aborted => true,
            _ => false,
        }
    }

    /// Takes one event and returns the action the host performs next.
    pub fn step(&mut self, event: GateEvent) -> (r: GateAction)
        ensures
            (*final(self), r) == next(*old(self), event),
    {
        let g = *self;
        let (n, a) = match (g.phase, event) {
            (GatePhase::ProbingSentinel, GateEvent::SentinelProbed(found)) => if found {
                (Gate { phase: GatePhase::Passed, ..g }, GateAction::Proceed)
            } else {
                (
                    Gate { phase: GatePhase::Decompressing, ..g },
                    GateAction::Decompress { ceiling: g.ceiling },
                )
            },
            (GatePhase::Decompressing, GateEvent::Decompressed(res)) => match res {
                Ok(_) => (Gate { phase: GatePhase::Prevalidating, ..g }, GateAction::Prevalidate),
                Err(k) => (
                    Gate { phase: GatePhase::Aborted, ..g },
                    GateAction::Abort(Error::Decompression(k)),
                ),
            },
            (GatePhase::Prevalidating, GateEvent::Prevalidated(res)) => match res {
                Ok(_) => (Gate { phase: GatePhase::Preparing, ..g }, GateAction::Prepare),
                Err(m) => (
                    Gate { phase: GatePhase::Aborted, ..g },
                    GateAction::Abort(Error::Prevalidation(m)),
                ),
            },
            (GatePhase::Preparing, GateEvent::Prepared { result, elapsed_ms }) => match result {
                Err(m) => (
                    Gate { phase: GatePhase::Aborted, ..g },
                    GateAction::Abort(Error::Preparation(m)),
                ),
                Ok(_) => if elapsed_ms <= g.limit_ms {
                    (Gate { phase: GatePhase::Persisting, ..g }, GateAction::CreateSentinel)
                } else {
                    (
                        Gate { phase: GatePhase::Aborted, ..g },
                        GateAction::Abort(
                            Error::PerformanceBelowThreshold { elapsed_ms, limit_ms: g.limit_ms },
                        ),
                    )
                },
            },
            (GatePhase::Persisting, GateEvent::SentinelWritten(_)) => (
                Gate { phase: GatePhase::Passed, ..g },
                GateAction::Proceed,
            ),
            _ => (g, GateAction::Nothing),
        };
        *self = n;
        a
    }
}

/// Once finished, the performance gate stays where it is and asks for nothing more.
pub proof fn lemma_finished_is_quiet(g: Gate, evs: Seq<GateEvent>)
    requires
        is_finished(g.phase),
    ensures
        after(g, evs) == g,
        forall|i: int| 0 <= i < actions(g, evs).len() ==> actions(g, evs)[i] is Nothing,
        actions(g, evs).len() == evs.len(),
    decreases evs.len(),
{
    if evs.len() > 0 {
        lemma_finished_is_quiet(g, evs.drop_first());
    }
}

/// With the sentinel marker present, the performance gate passes at once and never runs
/// decompression, prevalidation or preparation, whatever the host reports later.
pub proof fn lemma_sentinel_skips_pipeline(limit_ms: u64, ceiling: usize, later: Seq<GateEvent>)
    ensures
        ({
            let evs = seq![GateEvent::SentinelProbed(true)] + later;
            let acts = actions(Gate::fresh(limit_ms, ceiling), evs);
            &&& acts[0] == GateAction::Proceed
            &&& after(Gate::fresh(limit_ms, ceiling), evs).phase == GatePhase::Passed
            &&& forall|i: int| 0 <= i < acts.len() ==> !is_pipeline_action(#[trigger] acts[i])
        }),
{
    let g = Gate::fresh(limit_ms, ceiling);
    let evs = seq![GateEvent::SentinelProbed(true)] + later;
    assert(evs.drop_first() =~= later);
    let g1 = next(g, evs[0]).0;
    lemma_finished_is_quiet(g1, later);
}

/// The reference pipeline run in full with the given preparation time.
pub open spec fn full_run(elapsed_ms: u64) -> Seq<GateEvent> {
    seq![
        GateEvent::SentinelProbed(false),
        GateEvent::Decompressed(Ok(())),
        GateEvent::Prevalidated(Ok(())),
        GateEvent::Prepared { result: Ok(()), elapsed_ms },
    ]
}

/// The performance gate once the full pipeline has been reported with the given time.
pub open spec fn gate_after_run(limit_ms: u64, ceiling: usize, elapsed_ms: u64) -> Gate {
    Gate {
        phase: if elapsed_ms <= limit_ms {
            GatePhase::Persisting
        } else {
            GatePhase::Aborted
        },
        limit_ms,
        ceiling,
    }
}

/// What the performance gate asks for once preparation took `elapsed_ms`.
pub open spec fn verdict(limit_ms: u64, elapsed_ms: u64) -> GateAction {
    if elapsed_ms <= limit_ms {
        GateAction::CreateSentinel
    } else {
        GateAction::Abort(Error::PerformanceBelowThreshold { elapsed_ms, limit_ms })
    }
}

/// Runs the performance gate through the full pipeline and whatever follows.
proof fn lemma_full_run(limit_ms: u64, ceiling: usize, elapsed_ms: u64, later: Seq<GateEvent>)
    ensures
        ({
            let g = Gate::fresh(limit_ms, ceiling);
            let evs = full_run(elapsed_ms) + later;
            let g4 = gate_after_run(limit_ms, ceiling, elapsed_ms);
            &&& actions(g, evs) == seq![
                GateAction::Decompress { ceiling },
                GateAction::Prevalidate,
                GateAction::Prepare,
                verdict(limit_ms, elapsed_ms),
            ] + actions(g4, later)
            &&& after(g, evs) == after(g4, later)
        }),
{
    let g = Gate::fresh(limit_ms, ceiling);
    let evs = full_run(elapsed_ms) + later;
    let e1 = evs.drop_first();
    let e2 = e1.drop_first();
    let e3 = e2.drop_first();
    let e4 = e3.drop_first();
    assert(e4 =~= later);
    let g1 = next(g, evs[0]).0;
    let g2 = next(g1, e1[0]).0;
    let g3 = next(g2, e2[0]).0;
    let g4 = next(g3, e3[0]).0;
    assert(g4 == gate_after_run(limit_ms, ceiling, elapsed_ms));
    assert(next(g3, e3[0]).1 == verdict(limit_ms, elapsed_ms));
    let a3 = actions(g3, e3);
    let a2 = actions(g2, e2);
    let a1 = actions(g1, e1);
    assert(a3 == seq![verdict(limit_ms, elapsed_ms)] + actions(g4, later));
    assert(a2 == seq![GateAction::Prepare] + a3);
    assert(a1 == seq![GateAction::Prevalidate] + a2);
    assert(actions(g, evs) == seq![GateAction::Decompress { ceiling }] + a1);
    assert(actions(g, evs) =~= seq![
        GateAction::Decompress { ceiling },
        GateAction::Prevalidate,
        GateAction::Prepare,
        verdict(limit_ms, elapsed_ms),
    ] + actions(g4, later));
    assert(after(g3, e3) == after(g4, later));
    assert(after(g2, e2) == after(g3, e3));
    assert(after(g1, e1) == after(g2, e2));
    assert(after(g, evs) == after(g1, e1));
}

/// Once the sentinel has been asked for, or the performance gate has finished, it is never
/// asked for again.
proof fn lemma_sentinel_asked_at_most_once(g: Gate, evs: Seq<GateEvent>)
    requires
        g.phase is Persisting || is_finished(g.phase),
    ensures
        forall|i: int|
            0 <= i < actions(g, evs).len() ==> !(#[trigger] actions(g, evs)[i] is CreateSentinel),
    decreases evs.len(),
{
    if evs.len() > 0 {
        let g1 = next(g, evs[0]).0;
        lemma_sentinel_asked_at_most_once(g1, evs.drop_first());
        let rest = actions(g1, evs.drop_first());
        assert(actions(g, evs) == seq![next(g, evs[0]).1] + rest);
        assert forall|i: int| 0 <= i < actions(g, evs).len() implies !(
        #[trigger] actions(g, evs)[i] is CreateSentinel) by {
            if i > 0 {
                assert(actions(g, evs)[i] == rest[i - 1]);
            }
        }
    }
}

/// A host whose pipeline run takes longer than the limit makes the performance gate abort
/// with `PerformanceBelowThreshold`, reporting both durations, and the sentinel
/// marker is never asked for.
pub proof fn lemma_slow_host_aborts(
    limit_ms: u64,
    ceiling: usize,
    elapsed_ms: u64,
    later: Seq<GateEvent>,
)
    requires
        elapsed_ms > limit_ms,
    ensures
        ({
            let g = Gate::fresh(limit_ms, ceiling);
            let evs = full_run(elapsed_ms) + later;
            let acts = actions(g, evs);
            &&& acts[3] == GateAction::Abort(
                Error::PerformanceBelowThreshold { elapsed_ms, limit_ms },
            )
            &&& after(g, evs).phase == GatePhase::Aborted
            &&& forall|i: int| 0 <= i < acts.len() ==> !(#[trigger] acts[i] is CreateSentinel)
        }),
{
    let g4 = gate_after_run(limit_ms, ceiling, elapsed_ms);
    lemma_full_run(limit_ms, ceiling, elapsed_ms, later);
    lemma_finished_is_quiet(g4, later);
    let acts = actions(Gate::fresh(limit_ms, ceiling), full_run(elapsed_ms) + later);
    assert forall|i: int| 0 <= i < acts.len() implies !(#[trigger] acts[i] is CreateSentinel) by {
        if i >= 4 {
            assert(acts[i] == actions(g4, later)[i - 4]);
        }
    }
}

/// A host whose pipeline run stays within the limit has the sentinel marker
/// asked for exactly once; a later startup that finds the marker passes without
/// running any stage of the pipeline.
pub proof fn lemma_fast_host_persists_once(
    limit_ms: u64,
    ceiling: usize,
    elapsed_ms: u64,
    later: Seq<GateEvent>,
    next_start: Seq<GateEvent>,
)
    requires
        elapsed_ms <= limit_ms,
    ensures
        ({
            let g = Gate::fresh(limit_ms, ceiling);
            let acts = actions(g, full_run(elapsed_ms) + later);
            &&& acts[3] == GateAction::CreateSentinel
            &&& forall|i: int|
                0 <= i < acts.len() && i != 3 ==> !(#[trigger] acts[i] is CreateSentinel)
        }),
        ({
            let acts = actions(
                Gate::fresh(limit_ms, ceiling),
                seq![GateEvent::SentinelProbed(true)] + next_start,
            );
            forall|i: int| 0 <= i < acts.len() ==> !is_pipeline_action(#[trigger] acts[i])
        }),
{
    let g4 = gate_after_run(limit_ms, ceiling, elapsed_ms);
    lemma_full_run(limit_ms, ceiling, elapsed_ms, later);
    lemma_sentinel_asked_at_most_once(g4, later);
    let acts = actions(Gate::fresh(limit_ms, ceiling), full_run(elapsed_ms) + later);
    assert forall|i: int| 0 <= i < acts.len() && i != 3 implies !(
    #[trigger] acts[i] is CreateSentinel) by {
        if i >= 4 {
            assert(acts[i] == actions(g4, later)[i - 4]);
        }
    }
    lemma_sentinel_skips_pipeline(limit_ms, ceiling, next_start);
}

/// Whether `e` reports a successful preparation within `limit_ms`.
pub open spec fn in_time_preparation(e: GateEvent, limit_ms: u64) -> bool {
    match e {
        GateEvent::Prepared { result, elapsed_ms } => result is Ok && elapsed_ms <= limit_ms,
        _ => false,
    }
}

/// Whatever the host reports, the sentinel marker is asked for only in answer
/// to a successful preparation that stayed within the limit: never after a
/// failed stage or a slow run.
pub proof fn lemma_sentinel_only_after_in_time_run(g: Gate, evs: Seq<GateEvent>)
    ensures
        actions(g, evs).len() == evs.len(),
        forall|i: int|
            0 <= i < evs.len() && (#[trigger] actions(g, evs)[i]) is CreateSentinel
                ==> in_time_preparation(evs[i], g.limit_ms),
    decreases evs.len(),
{
    if evs.len() > 0 {
        let g1 = next(g, evs[0]).0;
        assert(g1.limit_ms == g.limit_ms);
        lemma_sentinel_only_after_in_time_run(g1, evs.drop_first());
        let rest = actions(g1, evs.drop_first());
        assert(actions(g, evs) == seq![next(g, evs[0]).1] + rest);
        assert forall|i: int|
            0 <= i < evs.len() && (#[trigger] actions(g, evs)[i]) is CreateSentinel implies in_time_preparation(
            evs[i],
            g.limit_ms,
        ) by {
            if i > 0 {
                assert(actions(g, evs)[i] == rest[i - 1]);
                assert(evs[i] == evs.drop_first()[i - 1]);
            }
        }
    }
}

} // verus!
