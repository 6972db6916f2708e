//! Graph-level decisions: which edge occupancies to refresh after a node steps,
//! and how a worker of the concurrent runtime judges its node's readiness.

use vstd::prelude::*;
use crate::edge::link::EdgeDescriptor;
use crate::edge::EdgeOccupancy;
use crate::policy::WatermarkState;
use crate::types::{NodeIndex, Ticks};

verus! {

/// Errors of graph-level operations.
#[derive(Debug, Clone, Copy, PartialEq, Eq, Structural)]
pub enum GraphError {
    /// An edge id does not name an edge of the graph.
    InvalidEdgeIndex,
    /// An occupancy could not be sampled.
    OccupancySampleFailed,
}

/// Whether edge descriptor `d` has node `n` at one of its ends.
pub open spec fn touches(d: EdgeDescriptor, n: NodeIndex) -> bool {
    d.spec_upstream().node == n || d.spec_downstream().node == n
}

/// The occupancies after refreshing, in order, the entries of the first `k`
/// descriptors that touch `n`, or the error at the first touching descriptor
/// whose id lies outside the table.
pub open spec fn refreshed(
    descs: Seq<EdgeDescriptor>,
    n: NodeIndex,
    samples: Seq<EdgeOccupancy>,
    out: Seq<EdgeOccupancy>,
    k: int,
) -> Result<Seq<EdgeOccupancy>, GraphError>
    decreases k,
{
    if k <= 0 {
        Ok(out)
    } else {
        match refreshed(descs, n, samples, out, k - 1) {
            Err(e) => Err(e),
            Ok(o) => {
                let d = descs[k - 1];
                if !touches(d, n) {
                    Ok(o)
                } else if d.spec_id().0 < o.len() {
                    Ok(o.update(d.spec_id().0 as int, samples[d.spec_id().0 as int]))
                } else {
                    Err(GraphError::InvalidEdgeIndex)
                }
            },
        }
    }
}

/// Copy into `out` the fresh occupancy sample of every edge that has `node` at
/// one of its ends, walking the descriptors in order; an edge id outside the
/// table is an error, and the entries refreshed before it stay refreshed.
pub fn refresh_occupancies_for_node(
    descriptors: &[EdgeDescriptor],
    node: NodeIndex,
    samples: &[EdgeOccupancy],
    out: &mut [EdgeOccupancy],
) -> (r: Result<(), GraphError>)
    requires
        samples@.len() == old(out)@.len(),
    ensures
        final(out)@.len() == old(out)@.len(),
        match refreshed(descriptors@, node, samples@, old(out)@, descriptors@.len() as int) {
            Ok(o) => r is Ok && final(out)@ == o,
            Err(e) => r == Err::<(), GraphError>(e),
        },
{
    let mut i: usize = 0;
    while i < descriptors.len()
        invariant
            0 <= i <= descriptors@.len(),
            samples@.len() == old(out)@.len() == out@.len(),
            refreshed(descriptors@, node, samples@, old(out)@, i as int) == Ok::<Seq<EdgeOccupancy>, GraphError>(out@),
        decreases descriptors@.len() - i,
    {
        let ed = &descriptors[i];
        if ed.upstream().node == node || ed.downstream().node == node {
            let ei = ed.id().as_usize();
            if ei < out.len() {
                out[ei] = samples[ei];
            } else {
                proof {
                    let ghost k = descriptors@.len() as int;
                    lemma_refreshed_error_sticks(descriptors@, node, samples@, old(out)@, i + 1, k);
                }
                return Err(GraphError::InvalidEdgeIndex);
            }
        }
        i = i + 1;
    }
    Ok(())
}

/// Once the refresh has failed, walking further descriptors keeps the same error.
proof fn lemma_refreshed_error_sticks(
    descs: Seq<EdgeDescriptor>,
    n: NodeIndex,
    samples: Seq<EdgeOccupancy>,
    out: Seq<EdgeOccupancy>,
    i: int,
    k: int,
)
    requires
        0 <= i <= k,
        refreshed(descs, n, samples, out, i) is Err,
    ensures
        refreshed(descs, n, samples, out, k) == refreshed(descs, n, samples, out, i),
    decreases k - i,
{
    if k > i {
        lemma_refreshed_error_sticks(descs, n, samples, out, i, k - 1);
    }
}

/// What walking the first `k` descriptors does: it fails exactly when some
/// descriptor among them has `n` at an end and an id outside the table; when it
/// succeeds, every entry whose id belongs to such a descriptor holds its fresh
/// sample and every other entry keeps its old value.
pub proof fn lemma_refreshed_shape(
    descs: Seq<EdgeDescriptor>,
    n: NodeIndex,
    samples: Seq<EdgeOccupancy>,
    out: Seq<EdgeOccupancy>,
    k: int,
)
    requires
        0 <= k <= descs.len(),
        samples.len() == out.len(),
    ensures
        (refreshed(descs, n, samples, out, k) is Ok) <==> (forall|i: int|
            0 <= i < k && (#[trigger] descs[i].spec_upstream().node == n || descs[i].spec_downstream().node == n)
                ==> descs[i].spec_id().0 < out.len()),
        refreshed(descs, n, samples, out, k) matches Ok(o) ==> {
            &&& o.len() == out.len()
            &&& forall|j: int| 0 <= j < out.len() ==> #[trigger] o[j] == (if exists|i: int|
                    0 <= i < k && (descs[i].spec_upstream().node == n || descs[i].spec_downstream().node == n)
                        && #[trigger] descs[i].spec_id().0 == j {
                    samples[j]
                } else {
                    out[j]
                })
        },
    decreases k,
{
    if k > 0 {
        lemma_refreshed_shape(descs, n, samples, out, k - 1);
        let d = descs[k - 1];
        match refreshed(descs, n, samples, out, k - 1) {
            Err(_) => {
                assert(!(forall|i: int|
                    0 <= i < k && (#[trigger] descs[i].spec_upstream().node == n || descs[i].spec_downstream().node == n)
                        ==> descs[i].spec_id().0 < out.len()));
            },
            Ok(o) => {
                if touches(d, n) && d.spec_id().0 < o.len() {
                    let o2 = o.update(d.spec_id().0 as int, samples[d.spec_id().0 as int]);
                    assert forall|j: int| 0 <= j < out.len() implies #[trigger] o2[j] == (if exists|i: int|
                            0 <= i < k && (descs[i].spec_upstream().node == n || descs[i].spec_downstream().node == n)
                                && #[trigger] descs[i].spec_id().0 == j {
                            samples[j]
                        } else {
                            out[j]
                        }) by {
                        if j == d.spec_id().0 {
                            assert(descs[k - 1].spec_id().0 == j);
                        } else {
                            assert(o2[j] == o[j]);
                            if exists|i: int|
                                0 <= i < k && (descs[i].spec_upstream().node == n || descs[i].spec_downstream().node == n)
                                    && #[trigger] descs[i].spec_id().0 == j {
                                let i = choose|i: int|
                                    0 <= i < k && (descs[i].spec_upstream().node == n || descs[i].spec_downstream().node == n)
                                        && #[trigger] descs[i].spec_id().0 == j;
                                assert(i < k - 1);
                            }
                        }
                    }
                } else if touches(d, n) {
                } else {
                    assert forall|j: int| 0 <= j < out.len() implies #[trigger] o[j] == (if exists|i: int|
                            0 <= i < k && (descs[i].spec_upstream().node == n || descs[i].spec_downstream().node == n)
                                && #[trigger] descs[i].spec_id().0 == j {
                            samples[j]
                        } else {
                            out[j]
                        }) by {
                        if exists|i: int|
                            0 <= i < k && (descs[i].spec_upstream().node == n || descs[i].spec_downstream().node == n)
                                && #[trigger] descs[i].spec_id().0 == j {
                            let i = choose|i: int|
                                0 <= i < k && (descs[i].spec_upstream().node == n || descs[i].spec_downstream().node == n)
                                    && #[trigger] descs[i].spec_id().0 == j;
                            assert(i < k - 1);
                        }
                    }
                }
            },
        }
    }
}

/// How ready a worker's node is to step.
#[derive(Debug, Clone, Copy, PartialEq, Eq, Structural)]
pub enum Readiness {
    /// No input is waiting.
    NotReady,
    /// Input is waiting and the outputs have room.
    Ready,
    /// Input is waiting but an output is at or above its soft cap.
    ReadyUnderPressure,
}

/// What a scheduler tells a worker to do next.
#[derive(Debug, Clone, Copy, PartialEq, Eq, Structural)]
pub enum WorkerDecision {
    /// Step the node once.
    Step,
    /// Sleep this many microseconds.
    WaitMicros(u64),
    /// Leave the worker loop.
    Stop,
}

/// Readiness of a node from whether input is waiting and, for nodes with an
/// output, the output's watermark.
pub open spec fn readiness_of(any_input: bool, backpressure: Option<WatermarkState>) -> Readiness {
    if !any_input {
        Readiness::NotReady
    } else {
        match backpressure {
            Some(w) => if w.level() >= 1 { Readiness::ReadyUnderPressure } else { Readiness::Ready },
            None => Readiness::Ready,
        }
    }
}

/// Snapshot a worker hands its scheduler.
#[derive(Debug, Clone, Copy)]
pub struct WorkerState<S> {
    /// Node this worker drives.
    pub node: usize,
    /// Number of nodes in the graph.
    pub node_count: usize,
    /// Tick of the latest observation.
    pub current_tick: Ticks,
    /// Readiness at the latest observation.
    pub readiness: Readiness,
    /// Output watermark at the latest observation.
    pub backpressure: WatermarkState,
    /// Result of the latest successful step, if the latest action was one.
    pub last_step: Option<S>,
    /// Whether the latest step failed.
    pub last_error: bool,
}

impl<S> WorkerState<S> {
    /// A fresh state: not ready, no pressure, no step taken.
    pub fn new(node: usize, node_count: usize, now: Ticks) -> (w: Self)
        ensures
            w.node == node,
            w.node_count == node_count,
            w.current_tick == now,
            w.readiness == Readiness::NotReady,
            w.backpressure == WatermarkState::BelowSoft,
            w.last_step is None,
            !w.last_error,
    {
        WorkerState {
            node,
            node_count,
            current_tick: now,
            readiness: Readiness::NotReady,
            backpressure: WatermarkState::BelowSoft,
            last_step: None,
            last_error: false,
        }
    }

    /// Record an observation: the tick, the input occupancy and (for a node with
    /// an output) the output occupancy, from which the readiness follows.
    pub fn observe(&mut self, now: Ticks, input: &EdgeOccupancy, output: Option<&EdgeOccupancy>)
        ensures
            final(self).current_tick == now,
            final(self).backpressure == (match output {
                Some(o) => o.watermark,
                None => old(self).backpressure,
            }),
            final(self).readiness == readiness_of(input.items > 0, match output {
                Some(o) => Some(o.watermark),
                None => None,
            }),
            final(self).node == old(self).node,
            final(self).node_count == old(self).node_count,
            final(self).last_step == old(self).last_step,
            final(self).last_error == old(self).last_error,
    {
        self.current_tick = now;
        let any_input = input.items > 0;
        let pressure = match output {
            Some(o) => {
                self.backpressure = o.watermark;
                Some(o.watermark)
            },
            None => None,
        };
        self.readiness = if !any_input {
            Readiness::NotReady
        } else {
            match pressure {
                Some(w) => if w.under_pressure() { Readiness::ReadyUnderPressure } else { Readiness::Ready },
                None => Readiness::Ready,
            }
        };
    }

    /// Record the outcome of a step: its result on success, an error flag on failure.
    pub fn record_step<E>(&mut self, outcome: Result<S, E>)
        ensures
            final(self).last_step == (match outcome {
                Ok(s) => Some(s),
                Err(_) => None::<S>,
            }),
            final(self).last_error == outcome is Err,
            final(self).node == old(self).node,
            final(self).node_count == old(self).node_count,
            final(self).current_tick == old(self).current_tick,
            final(self).readiness == old(self).readiness,
            final(self).backpressure == old(self).backpressure,
    {
        match outcome {
            Ok(sr) => {
                self.last_step = Some(sr);
                self.last_error = false;
            },
            Err(_) => {
                self.last_step = None;
                self.last_error = true;
            },
        }
    }

    /// Record a wait: no step was taken and no error occurred.
    pub fn record_wait(&mut self)
        ensures
            final(self).last_step is None,
            !final(self).last_error,
            final(self).node == old(self).node,
            final(self).node_count == old(self).node_count,
            final(self).current_tick == old(self).current_tick,
            final(self).readiness == old(self).readiness,
            final(self).backpressure == old(self).backpressure,
    {
        self.last_step = None;
        self.last_error = false;
    }
}

} // verus!
