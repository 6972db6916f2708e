//! Queue capacities, watermarks, admission decisions and batching policies.

use vstd::prelude::*;
use crate::types::{QoSClass, Ticks};

verus! {

/// Hard and soft occupancy limits of a queue, in items and optionally in bytes.
#[derive(Debug, Clone, Copy, PartialEq, Eq, Structural)]
pub struct QueueCaps {
    /// Hard item limit.
    pub max_items: usize,
    /// Soft item limit (pressure starts here).
    pub soft_items: usize,
    /// Optional hard byte limit.
    pub max_bytes: Option<usize>,
    /// Optional soft byte limit.
    pub soft_bytes: Option<usize>,
}

impl QueueCaps {
    /// Whether `items`/`bytes` reach the hard limit.
    pub open spec fn hard_reached(&self, items: int, bytes: int) -> bool {
        items >= self.max_items || (self.max_bytes matches Some(m) && bytes >= m)
    }

    /// Whether `items`/`bytes` reach the soft limit.
    pub open spec fn soft_reached(&self, items: int, bytes: int) -> bool {
        items >= self.soft_items || (self.soft_bytes matches Some(m) && bytes >= m)
    }

    /// Construct caps.
    pub fn new(
        max_items: usize,
        soft_items: usize,
        max_bytes: Option<usize>,
        soft_bytes: Option<usize>,
    ) -> (c: QueueCaps)
        ensures
            c == (QueueCaps { max_items, soft_items, max_bytes, soft_bytes }),
    {
        QueueCaps { max_items, soft_items, max_bytes, soft_bytes }
    }

    /// Is the occupancy at or above the hard limit?
    pub fn at_or_above_hard(&self, items: usize, bytes: usize) -> (b: bool)
        ensures
            b == self.hard_reached(items as int, bytes as int),
    {
        if items >= self.max_items {
            return true;
        }
        match self.max_bytes {
            Some(m) => bytes >= m,
            None => false,
        }
    }

    /// Is the occupancy at or above the soft limit?
    pub fn at_or_above_soft(&self, items: usize, bytes: usize) -> (b: bool)
        ensures
            b == self.soft_reached(items as int, bytes as int),
    {
        if items >= self.soft_items {
            return true;
        }
        match self.soft_bytes {
            Some(m) => bytes >= m,
            None => false,
        }
    }
}

/// Occupancy level of a queue relative to its caps; the variants are in increasing order.
#[derive(Debug, Clone, Copy, PartialEq, Eq, Structural)]
pub enum WatermarkState {
    /// Below the soft limit.
    BelowSoft,
    /// At or above the soft limit but below the hard one.
    BetweenSoftAndHard,
    /// At or above the hard limit.
    AtOrAboveHard,
}

impl WatermarkState {
    /// Position of the level in the order `BelowSoft < BetweenSoftAndHard < AtOrAboveHard`.
    pub open spec fn level(self) -> int {
        match self {
            WatermarkState::BelowSoft => 0,
            WatermarkState::BetweenSoftAndHard => 1,
            WatermarkState::AtOrAboveHard => 2,
        }
    }

    /// Whether this level is at least `BetweenSoftAndHard`.
    pub fn under_pressure(&self) -> (b: bool)
        ensures
            b == (self.level() >= 1),
    {
        match self {
            WatermarkState::BelowSoft => false,
            _ => true,
        }
    }
}

/// How an edge treats a new item when it is under pressure.
#[derive(Debug, Clone, Copy, PartialEq, Eq, Structural)]
pub enum AdmissionPolicy {
    /// Drop the incoming item at the hard limit.
    DropNewest,
    /// Evict the oldest items to make room.
    DropOldest,
    /// Ask the producer to wait at the hard limit.
    Block,
    /// Latency-critical items displace old ones; others follow the over-budget action.
    DeadlineAndQoSAware,
}

/// What to do with an item that does not fit its budget.
#[derive(Debug, Clone, Copy, PartialEq, Eq, Structural)]
pub enum OverBudgetAction {
    /// Drop the item.
    Drop,
    /// Skip the current stage.
    SkipStage,
    /// Run a degraded path.
    Degrade,
    /// Emit a default output.
    DefaultOnTimeout,
}

/// Outcome of an admission decision for one incoming item.
#[derive(Debug, Clone, Copy, PartialEq, Eq, Structural)]
pub enum AdmissionDecision {
    /// Enqueue the item.
    Admit,
    /// Drop the incoming item.
    DropNewest,
    /// Refuse the item.
    Reject,
    /// The producer should wait.
    Block,
    /// Evict up to this many of the oldest items, then enqueue.
    Evict(usize),
    /// Evict the oldest items until the queue is below its hard limit, then enqueue.
    EvictUntilBelowHard,
}

/// Caps plus admission behaviour of one edge.
#[derive(Debug, Clone, Copy, PartialEq, Eq, Structural)]
pub struct EdgePolicy {
    /// Occupancy limits.
    pub caps: QueueCaps,
    /// Admission behaviour under pressure.
    pub admission: AdmissionPolicy,
    /// Action for over-budget items.
    pub over_budget: OverBudgetAction,
}

/// The watermark level of `items`/`bytes` under `caps`.
pub open spec fn watermark_of(caps: QueueCaps, items: int, bytes: int) -> WatermarkState {
    if caps.hard_reached(items, bytes) {
        WatermarkState::AtOrAboveHard
    } else if caps.soft_reached(items, bytes) {
        WatermarkState::BetweenSoftAndHard
    } else {
        WatermarkState::BelowSoft
    }
}

/// The admission decision for an item of class `qos` arriving at `items`/`bytes`.
pub open spec fn decision_of(policy: EdgePolicy, items: int, bytes: int, qos: QoSClass) -> AdmissionDecision {
    match watermark_of(policy.caps, items, bytes) {
        WatermarkState::BelowSoft => AdmissionDecision::Admit,
        WatermarkState::BetweenSoftAndHard => match policy.admission {
            AdmissionPolicy::DropOldest => AdmissionDecision::Evict(1),
            _ => AdmissionDecision::Admit,
        },
        WatermarkState::AtOrAboveHard => match policy.admission {
            AdmissionPolicy::DropNewest => AdmissionDecision::DropNewest,
            AdmissionPolicy::DropOldest => AdmissionDecision::EvictUntilBelowHard,
            AdmissionPolicy::Block => AdmissionDecision::Block,
            AdmissionPolicy::DeadlineAndQoSAware => if qos == QoSClass::LatencyCritical {
                AdmissionDecision::EvictUntilBelowHard
            } else if policy.over_budget == OverBudgetAction::Drop {
                AdmissionDecision::DropNewest
            } else {
                AdmissionDecision::Reject
            },
        },
    }
}

impl EdgePolicy {
    /// Construct a policy.
    pub fn new(caps: QueueCaps, admission: AdmissionPolicy, over_budget: OverBudgetAction) -> (p: EdgePolicy)
        ensures
            p == (EdgePolicy { caps, admission, over_budget }),
    {
        EdgePolicy { caps, admission, over_budget }
    }

    /// Watermark level of an occupancy.
    pub fn watermark(&self, items: usize, bytes: usize) -> (w: WatermarkState)
        ensures
            w == watermark_of(self.caps, items as int, bytes as int),
    {
        if self.caps.at_or_above_hard(items, bytes) {
            WatermarkState::AtOrAboveHard
        } else if self.caps.at_or_above_soft(items, bytes) {
            WatermarkState::BetweenSoftAndHard
        } else {
            WatermarkState::BelowSoft
        }
    }

    /// Admission decision for an item of class `qos` arriving at the given occupancy.
    pub fn decide(&self, items: usize, bytes: usize, qos: QoSClass) -> (d: AdmissionDecision)
        ensures
            d == decision_of(*self, items as int, bytes as int, qos),
    {
        match self.watermark(items, bytes) {
            WatermarkState::BelowSoft => AdmissionDecision::Admit,
            WatermarkState::BetweenSoftAndHard => match self.admission {
                AdmissionPolicy::DropOldest => AdmissionDecision::Evict(1),
                _ => AdmissionDecision::Admit,
            },
            WatermarkState::AtOrAboveHard => match self.admission {
                AdmissionPolicy::DropNewest => AdmissionDecision::DropNewest,
                AdmissionPolicy::DropOldest => AdmissionDecision::EvictUntilBelowHard,
                AdmissionPolicy::Block => AdmissionDecision::Block,
                AdmissionPolicy::DeadlineAndQoSAware => match qos {
                    QoSClass::LatencyCritical => AdmissionDecision::EvictUntilBelowHard,
                    _ => match self.over_budget {
                        OverBudgetAction::Drop => AdmissionDecision::DropNewest,
                        _ => AdmissionDecision::Reject,
                    },
                },
            },
        }
    }
}

/// A sliding window: present `size` items, then advance by `stride`.
#[derive(Debug, Clone, Copy, PartialEq, Eq, Structural)]
pub struct SlidingWindow {
    /// Number of items presented.
    pub size: usize,
    /// Number of items consumed per batch.
    pub stride: usize,
}

impl SlidingWindow {
    /// Construct a window.
    pub fn new(size: usize, stride: usize) -> (w: SlidingWindow)
        ensures
            w.size == size,
            w.stride == stride,
    {
        SlidingWindow { size, stride }
    }

    /// Items presented per batch.
    pub fn size(&self) -> (s: &usize)
        ensures
            *s == self.size,
    {
        &self.size
    }

    /// Items consumed per batch.
    pub fn stride(&self) -> (s: &usize)
        ensures
            *s == self.stride,
    {
        &self.stride
    }
}

/// How consecutive batches relate.
#[derive(Debug, Clone, Copy, PartialEq, Eq, Structural)]
pub enum WindowKind {
    /// Consecutive batches share no item.
    Disjoint,
    /// Consecutive batches overlap.
    Sliding(SlidingWindow),
}

/// How many items a batch holds.
#[derive(Debug, Clone, Copy, PartialEq, Eq, Structural)]
pub struct BatchingPolicy {
    /// At most this many items per batch.
    pub fixed_n: Option<usize>,
    /// Only items created within this many ticks of the batch's first item.
    pub max_delta_t: Option<Ticks>,
    /// Window style.
    pub window_kind: WindowKind,
}

/// The item cap that applies: `fixed_n`, or one item when neither cap is given.
pub open spec fn effective_fixed_of(p: BatchingPolicy) -> Option<usize> {
    if p.fixed_n is None && p.max_delta_t is None {
        Some(1usize)
    } else {
        p.fixed_n
    }
}

/// `limit` bounded by an optional cap.
pub open spec fn capped(cap: Option<usize>, limit: int) -> int {
    match cap {
        Some(n) => if limit <= n { limit } else { n as int },
        None => limit,
    }
}

/// The smaller of two integers.
pub open spec fn min_int(a: int, b: int) -> int {
    if a <= b { a } else { b }
}

impl BatchingPolicy {
    /// Construct a policy.
    pub fn new(fixed_n: Option<usize>, max_delta_t: Option<Ticks>, window_kind: WindowKind) -> (p: BatchingPolicy)
        ensures
            p == (BatchingPolicy { fixed_n, max_delta_t, window_kind }),
    {
        BatchingPolicy { fixed_n, max_delta_t, window_kind }
    }

    /// Disjoint batches of at most `n` items.
    pub fn fixed(n: usize) -> (p: BatchingPolicy)
        ensures
            p == (BatchingPolicy { fixed_n: Some(n), max_delta_t: None, window_kind: WindowKind::Disjoint }),
    {
        BatchingPolicy { fixed_n: Some(n), max_delta_t: None, window_kind: WindowKind::Disjoint }
    }

    /// The item cap.
    pub fn fixed_n(&self) -> (n: &Option<usize>)
        ensures
            *n == self.fixed_n,
    {
        &self.fixed_n
    }

    /// The age cap.
    pub fn max_delta_t(&self) -> (d: &Option<Ticks>)
        ensures
            *d == self.max_delta_t,
    {
        &self.max_delta_t
    }

    /// The window style.
    pub fn window_kind(&self) -> (w: WindowKind)
        ensures
            w == self.window_kind,
    {
        self.window_kind
    }

    /// The item cap that applies: `fixed_n`, or one item when neither cap is given.
    pub fn effective_fixed(&self) -> (n: Option<usize>)
        ensures
            n == effective_fixed_of(*self),
    {
        if self.fixed_n.is_none() && self.max_delta_t.is_none() {
            Some(1)
        } else {
            self.fixed_n
        }
    }
}

/// `limit` bounded by an optional cap.
pub fn apply_fixed(cap: Option<usize>, limit: usize) -> (r: usize)
    ensures
        r == capped(cap, limit as int),
{
    match cap {
        Some(n) => if limit <= n { limit } else { n },
        None => limit,
    }
}

/// The smaller of two counts.
pub fn min_usize(a: usize, b: usize) -> (r: usize)
    ensures
        r == min_int(a as int, b as int),
{
    if a <= b { a } else { b }
}

} // verus!
