//! Wiring of the three-node pipeline (a source, a map stage and a sink in a
//! line): its edge descriptors, with the external ingress of the source first,
//! and the edge ids each node reads from and writes to.

use vstd::prelude::*;
use crate::edge::link::EdgeDescriptor;
use crate::types::{EdgeIndex, NodeIndex, PortId, PortIndex};

verus! {

/// The pipeline's edges in id order: the ingress edge from `ingress` into the
/// source (id 0, "ingress0"), source to map (id 1, "e0") and map to sink
/// (id 2, "e1"), each between port 0 of its ends.
pub fn pipeline_edge_descriptors(ingress: NodeIndex) -> (d: [EdgeDescriptor; 3])
    ensures
        d@[0].spec_id() == EdgeIndex(0),
        d@[0].spec_upstream() == (PortId { node: ingress, port: PortIndex(0) }),
        d@[0].spec_downstream() == (PortId { node: NodeIndex(0), port: PortIndex(0) }),
        d@[0].spec_name() == Some("ingress0"),
        d@[1].spec_id() == EdgeIndex(1),
        d@[1].spec_upstream() == (PortId { node: NodeIndex(0), port: PortIndex(0) }),
        d@[1].spec_downstream() == (PortId { node: NodeIndex(1), port: PortIndex(0) }),
        d@[1].spec_name() == Some("e0"),
        d@[2].spec_id() == EdgeIndex(2),
        d@[2].spec_upstream() == (PortId { node: NodeIndex(1), port: PortIndex(0) }),
        d@[2].spec_downstream() == (PortId { node: NodeIndex(2), port: PortIndex(0) }),
        d@[2].spec_name() == Some("e1"),
{
    let port0 = PortIndex::new(0);
    [
        EdgeDescriptor::new(EdgeIndex::new(0), PortId::new(ingress, port0), PortId::new(NodeIndex::new(0), port0), Some("ingress0")),
        EdgeDescriptor::new(EdgeIndex::new(1), PortId::new(NodeIndex::new(0), port0), PortId::new(NodeIndex::new(1), port0), Some("e0")),
        EdgeDescriptor::new(EdgeIndex::new(2), PortId::new(NodeIndex::new(1), port0), PortId::new(NodeIndex::new(2), port0), Some("e1")),
    ]
}

/// The ids of the edges node `node` reads from.
pub open spec fn in_edges_of(node: int) -> Seq<u32> {
    if node == 0 { seq![] } else if node == 1 { seq![1u32] } else { seq![2u32] }
}

/// The ids of the edges node `node` writes to.
pub open spec fn out_edges_of(node: int) -> Seq<u32> {
    if node == 0 { seq![1u32] } else if node == 1 { seq![2u32] } else { seq![] }
}

/// For node `node`: its id, the ids of its input edges and of its output edges
/// (the source writes edge 1, the map reads 1 and writes 2, the sink reads 2).
pub fn node_edge_ids(node: usize) -> (r: (u32, Vec<u32>, Vec<u32>))
    requires
        node < 3,
    ensures
        r.0 == node,
        r.1@ == in_edges_of(node as int),
        r.2@ == out_edges_of(node as int),
{
    if node == 0 {
        (0, Vec::new(), vec![1u32])
    } else if node == 1 {
        (1, vec![1u32], vec![2u32])
    } else {
        (2, vec![2u32], Vec::new())
    }
}

} // verus!
