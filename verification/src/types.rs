//! Small newtypes shared across the runtime: ticks, QoS classes and graph indices.

use vstd::prelude::*;

verus! {

/// A monotonic time stamp measured in platform ticks.
#[derive(Debug, Clone, Copy, PartialEq, Eq, Structural)]
pub struct Ticks(pub u64);

impl Ticks {
    /// Construct from a raw tick count.
    pub fn new(v: u64) -> (t: Ticks)
        ensures
            t.0 == v,
    {
        Ticks(v)
    }

    /// The raw tick count.
    pub fn as_u64(&self) -> (v: &u64)
        ensures
            *v == self.0,
    {
        &self.0
    }

    /// `self - earlier`, clamped at zero.
    pub fn saturating_sub(&self, earlier: Ticks) -> (d: Ticks)
        ensures
            d.0 == if self.0 >= earlier.0 { self.0 - earlier.0 } else { 0 },
    {
        if self.0 >= earlier.0 {
            Ticks(self.0 - earlier.0)
        } else {
            Ticks(0)
        }
    }
}

/// Quality-of-service class carried in every message header.
#[derive(Debug, Clone, Copy, PartialEq, Eq, Structural)]
pub enum QoSClass {
    /// Must be delivered with the lowest possible latency.
    LatencyCritical,
    /// Regular traffic.
    Standard,
    /// May be dropped first under pressure.
    BestEffort,
}

/// Index of a node in a graph.
#[derive(Debug, Clone, Copy, PartialEq, Eq, Structural)]
pub struct NodeIndex(pub usize);

impl NodeIndex {
    /// Construct a node index.
    pub fn new(v: usize) -> (n: NodeIndex)
        ensures
            n.0 == v,
    {
        NodeIndex(v)
    }

    /// The index as a `usize`.
    pub fn as_usize(&self) -> (v: usize)
        ensures
            v == self.0,
    {
        self.0
    }
}

/// Index of a port on one side (inputs or outputs) of a node.
#[derive(Debug, Clone, Copy, PartialEq, Eq, Structural)]
pub struct PortIndex(pub usize);

impl PortIndex {
    /// Construct a port index.
    pub fn new(v: usize) -> (p: PortIndex)
        ensures
            p.0 == v,
    {
        PortIndex(v)
    }

    /// The index as a `usize`.
    pub fn as_usize(&self) -> (v: usize)
        ensures
            v == self.0,
    {
        self.0
    }
}

/// A port of a given node.
#[derive(Debug, Clone, Copy, PartialEq, Eq, Structural)]
pub struct PortId {
    /// The node the port belongs to.
    pub node: NodeIndex,
    /// The port on that node.
    pub port: PortIndex,
}

impl PortId {
    /// Construct a port id.
    pub fn new(node: NodeIndex, port: PortIndex) -> (p: PortId)
        ensures
            p.node == node,
            p.port == port,
    {
        PortId { node, port }
    }

    /// The node of this port.
    pub fn node(&self) -> (n: &NodeIndex)
        ensures
            *n == self.node,
    {
        &self.node
    }

    /// The port index on the node.
    pub fn port(&self) -> (p: &PortIndex)
        ensures
            *p == self.port,
    {
        &self.port
    }
}

/// Index of an edge in a graph.
#[derive(Debug, Clone, Copy, PartialEq, Eq, Structural)]
pub struct EdgeIndex(pub usize);

impl EdgeIndex {
    /// Construct an edge index.
    pub fn new(v: usize) -> (e: EdgeIndex)
        ensures
            e.0 == v,
    {
        EdgeIndex(v)
    }

    /// The index as a `usize`.
    pub fn as_usize(&self) -> (v: usize)
        ensures
            v == self.0,
    {
        self.0
    }
}

} // verus!
