use limen::edge::link::EdgeDescriptor;
use limen::edge::EdgeOccupancy;
use limen::graph::{refresh_occupancies_for_node, GraphError, Readiness, WorkerState};
use limen::policy::WatermarkState;
use limen::types::{EdgeIndex, NodeIndex, PortId, PortIndex, Ticks};

fn port(n: usize) -> PortId {
    PortId::new(NodeIndex::new(n), PortIndex::new(0))
}

fn occ(n: usize) -> EdgeOccupancy {
    EdgeOccupancy::new(n, n * 4, WatermarkState::BelowSoft)
}

#[test]
fn refresh_updates_edges_touching_the_node() {
    let descs = [
        EdgeDescriptor::new(EdgeIndex::new(0), port(99), port(0), Some("ingress0")),
        EdgeDescriptor::new(EdgeIndex::new(1), port(0), port(1), Some("e0")),
        EdgeDescriptor::new(EdgeIndex::new(2), port(1), port(2), Some("e1")),
    ];
    let samples = [occ(5), occ(6), occ(7)];
    let mut out = [occ(0), occ(0), occ(0)];
    assert_eq!(refresh_occupancies_for_node(&descs, NodeIndex::new(1), &samples, &mut out), Ok(()));
    assert_eq!(out, [occ(0), occ(6), occ(7)]);
    let mut out0 = [occ(0), occ(0), occ(0)];
    assert_eq!(refresh_occupancies_for_node(&descs, NodeIndex::new(0), &samples, &mut out0), Ok(()));
    assert_eq!(out0, [occ(5), occ(6), occ(0)]);
}

#[test]
fn refresh_reports_an_edge_id_outside_the_table() {
    let descs = [
        EdgeDescriptor::new(EdgeIndex::new(1), port(0), port(1), None),
        EdgeDescriptor::new(EdgeIndex::new(5), port(1), port(2), None),
    ];
    let samples = [occ(1), occ(2)];
    let mut out = [occ(0), occ(0)];
    assert_eq!(
        refresh_occupancies_for_node(&descs, NodeIndex::new(1), &samples, &mut out),
        Err(GraphError::InvalidEdgeIndex)
    );
    assert_eq!(out, [occ(0), occ(2)]);
}

#[test]
fn worker_readiness_follows_input_and_backpressure() {
    let mut w: WorkerState<u8> = WorkerState::new(1, 3, Ticks::new(0));
    assert_eq!(w.readiness, Readiness::NotReady);
    let empty = EdgeOccupancy::new(0, 0, WatermarkState::BelowSoft);
    let some = EdgeOccupancy::new(2, 8, WatermarkState::BelowSoft);
    let pressed = EdgeOccupancy::new(7, 28, WatermarkState::BetweenSoftAndHard);

    w.observe(Ticks::new(5), &empty, Some(&some));
    assert_eq!(w.readiness, Readiness::NotReady);
    assert_eq!(w.current_tick, Ticks::new(5));
    w.observe(Ticks::new(6), &some, Some(&some));
    assert_eq!(w.readiness, Readiness::Ready);
    w.observe(Ticks::new(7), &some, Some(&pressed));
    assert_eq!(w.readiness, Readiness::ReadyUnderPressure);
    assert_eq!(w.backpressure, WatermarkState::BetweenSoftAndHard);
    // A sink has no output: never under pressure, backpressure kept.
    w.observe(Ticks::new(8), &some, None);
    assert_eq!(w.readiness, Readiness::Ready);
    assert_eq!(w.backpressure, WatermarkState::BetweenSoftAndHard);

    w.record_step::<()>(Ok(3));
    assert_eq!((w.last_step, w.last_error), (Some(3), false));
    w.record_step(Err(()));
    assert_eq!((w.last_step, w.last_error), (None, true));
    w.record_wait();
    assert_eq!((w.last_step, w.last_error), (None, false));
}
