use limen::pipeline::{node_edge_ids, pipeline_edge_descriptors};
use limen::types::{EdgeIndex, NodeIndex, PortId, PortIndex};

#[test]
fn pipeline_edges_chain_ingress_source_map_sink() {
    let ingress = NodeIndex::new(usize::MAX);
    let d = pipeline_edge_descriptors(ingress);
    let p = |n: usize| PortId::new(NodeIndex::new(n), PortIndex::new(0));
    assert_eq!(d[0].id(), &EdgeIndex::new(0));
    assert_eq!(d[0].upstream(), &PortId::new(ingress, PortIndex::new(0)));
    assert_eq!(d[0].downstream(), &p(0));
    assert_eq!(d[0].name(), Some("ingress0"));
    assert_eq!((d[1].id(), d[1].upstream(), d[1].downstream(), d[1].name()), (&EdgeIndex::new(1), &p(0), &p(1), Some("e0")));
    assert_eq!((d[2].id(), d[2].upstream(), d[2].downstream(), d[2].name()), (&EdgeIndex::new(2), &p(1), &p(2), Some("e1")));
}

#[test]
fn nodes_read_and_write_their_edges() {
    assert_eq!(node_edge_ids(0), (0, vec![], vec![1]));
    assert_eq!(node_edge_ids(1), (1, vec![1], vec![2]));
    assert_eq!(node_edge_ids(2), (2, vec![2], vec![]));
}
