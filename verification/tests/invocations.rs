use agent_core::cycle_detection::{CycleDecision, CycleDetector};
use agent_core::depth_limit::{DepthDecision, DepthLimiter};
use agent_core::ids::{AgentId, ProjectId};
use agent_core::invocation_graph::{
    InvocationGraph, InvocationGraphError, InvocationNodeStatus, InvocationRequest,
    MAX_INVOCATION_GRAPH_NODES,
};
use agent_core::parallel_batch::{ParallelBatch, ParallelBatchError, ParallelChildOutcome};

fn request(id: u128, caller: u128, callee: u128, depth: u16) -> InvocationRequest {
    InvocationRequest {
        invocation_id: id,
        project_id: ProjectId(7),
        caller_id: AgentId(caller),
        callee_id: AgentId(callee),
        depth,
        status: InvocationNodeStatus::Running,
        accepted: true,
    }
}

/// root (1 -> 2) and its child (2 -> 3).
fn chain() -> InvocationGraph {
    let mut graph = InvocationGraph::new();
    graph.register(request(10, 1, 2, 0), None).unwrap();
    graph.register(request(11, 2, 3, 1), Some(10)).unwrap();
    graph
}

#[test]
fn registration_refuses_bad_requests_in_order() {
    let mut graph = chain();
    let mut refused = request(12, 3, 4, 2);
    refused.accepted = false;
    assert_eq!(graph.register(refused, Some(11)), Err(InvocationGraphError::InvalidRequest));
    assert_eq!(graph.register(request(11, 3, 4, 2), Some(10)), Err(InvocationGraphError::Duplicate));
    assert_eq!(graph.register(request(12, 3, 4, 2), Some(99)), Err(InvocationGraphError::MissingParent));
    let mut foreign = request(12, 3, 4, 2);
    foreign.project_id = ProjectId(8);
    assert_eq!(graph.register(foreign, Some(11)), Err(InvocationGraphError::ScopeMismatch));
    assert_eq!(graph.register(request(12, 3, 4, 2), Some(11)), Ok(()));
    assert_eq!(graph.parent(12), Some(Some(11)));
    assert_eq!(graph.parent(10), Some(None));
    assert_eq!(graph.parent(99), None);
    assert_eq!(graph.request(12).unwrap().callee_id, AgentId(4));
}

#[test]
fn graph_is_bounded() {
    let mut graph = InvocationGraph::new();
    for i in 0..MAX_INVOCATION_GRAPH_NODES as u128 {
        graph.register(request(i, 1, 2, 0), None).unwrap();
    }
    assert_eq!(
        graph.register(request(1_000, 1, 2, 0), None),
        Err(InvocationGraphError::NodeLimit)
    );
}

#[test]
fn cancel_marks_once() {
    let mut graph = chain();
    assert_eq!(graph.status(11), Some(InvocationNodeStatus::Running));
    assert!(graph.cancel(11));
    assert_eq!(graph.status(11), Some(InvocationNodeStatus::Cancelled));
    assert!(!graph.cancel(11));
    assert!(!graph.cancel(99));
    assert_eq!(graph.status(99), None);
}

#[test]
fn cycle_preflight_walks_the_ancestry() {
    let graph = chain();
    assert_eq!(CycleDetector::check(&graph, Some(11), &request(20, 3, 3, 2)), CycleDecision::RejectSelfLoop);
    assert_eq!(CycleDetector::check(&graph, Some(11), &request(20, 3, 4, 2)), CycleDecision::Pass);
    assert_eq!(
        CycleDetector::check(&graph, Some(11), &request(20, 3, 2, 2)),
        CycleDecision::RejectAncestorCycle { path_len: 1 }
    );
    assert_eq!(
        CycleDetector::check(&graph, Some(11), &request(20, 3, 1, 2)),
        CycleDecision::RejectAncestorCycle { path_len: 2 }
    );
    assert_eq!(
        CycleDetector::check(&graph, Some(99), &request(20, 3, 4, 2)),
        CycleDecision::RejectGraphIncomplete
    );
    let mut refused = request(20, 3, 4, 2);
    refused.accepted = false;
    assert_eq!(CycleDetector::check(&graph, Some(11), &refused), CycleDecision::RejectGraphIncomplete);
    let mut foreign = request(20, 3, 4, 2);
    foreign.project_id = ProjectId(8);
    assert_eq!(CycleDetector::check(&graph, Some(11), &foreign), CycleDecision::RejectGraphIncomplete);
    assert_eq!(CycleDetector::check(&graph, None, &request(20, 3, 1, 0)), CycleDecision::Pass);
}

#[test]
fn depth_preflight_counts_the_ancestry() {
    let graph = chain();
    assert_eq!(DepthLimiter::check(&graph, Some(11), &request(20, 3, 4, 2), 3), DepthDecision::Pass { depth: 2 });
    assert_eq!(DepthLimiter::check(&graph, None, &request(20, 3, 4, 0), 3), DepthDecision::Pass { depth: 0 });
    assert_eq!(
        DepthLimiter::check(&graph, Some(11), &request(20, 3, 4, 1), 3),
        DepthDecision::RejectDepthMismatch
    );
    assert_eq!(DepthLimiter::check(&graph, Some(11), &request(20, 3, 4, 2), 1), DepthDecision::RejectDepthLimit);
    assert_eq!(DepthLimiter::check(&graph, Some(11), &request(20, 3, 4, 1), 1), DepthDecision::RejectDepthMismatch);
    assert_eq!(DepthLimiter::check(&graph, Some(11), &request(20, 3, 4, 2), 0), DepthDecision::RejectDepthLimit);
    assert_eq!(
        DepthLimiter::check(&graph, Some(99), &request(20, 3, 4, 2), 3),
        DepthDecision::RejectGraphIncomplete
    );
}

fn passed(id: u128) -> (InvocationRequest, CycleDecision, DepthDecision) {
    (request(id, 3, 4, 2), CycleDecision::Pass, DepthDecision::Pass { depth: 2 })
}

#[test]
fn batch_admits_children_in_order() {
    let graph = chain();
    let batch = ParallelBatch::prepare(&graph, Some(11), vec![passed(31), passed(30)], 2, 1).unwrap();
    assert_eq!(batch.len(), 2);
    assert!(!batch.is_empty());
    assert_eq!(batch.concurrency_limit(), 1);
    assert_eq!(batch.ids(), vec![31, 30]);
}

#[test]
fn batch_refusals() {
    let graph = chain();
    let prepare = |c: Vec<(InvocationRequest, CycleDecision, DepthDecision)>, parent: Option<u128>| {
        ParallelBatch::prepare(&graph, parent, c, 2, 1).err()
    };
    assert_eq!(prepare(vec![passed(1), passed(2), passed(3)], Some(11)), Some(ParallelBatchError::InvalidLimit));
    assert_eq!(
        ParallelBatch::prepare(&graph, Some(11), vec![passed(1)], 2, 0).err(),
        Some(ParallelBatchError::InvalidLimit)
    );
    assert_eq!(prepare(vec![passed(1)], Some(99)), Some(ParallelBatchError::GraphIncomplete));
    let rejected = (request(1, 3, 4, 2), CycleDecision::RejectSelfLoop, DepthDecision::Pass { depth: 2 });
    assert_eq!(prepare(vec![rejected], Some(11)), Some(ParallelBatchError::PreflightRejected));
    let too_deep = (request(1, 3, 4, 2), CycleDecision::Pass, DepthDecision::RejectDepthLimit);
    assert_eq!(prepare(vec![too_deep], Some(11)), Some(ParallelBatchError::PreflightRejected));
    assert_eq!(prepare(vec![passed(1), passed(1)], Some(11)), Some(ParallelBatchError::Duplicate));
    let mut foreign = passed(1);
    foreign.0.project_id = ProjectId(8);
    assert_eq!(prepare(vec![foreign], Some(11)), Some(ParallelBatchError::ScopeMismatch));
    let mut foreign_root = passed(1);
    foreign_root.0.project_id = ProjectId(8);
    assert!(prepare(vec![foreign_root], None).is_none());
}

#[test]
fn join_orders_outcomes_by_child() {
    let graph = chain();
    let mut batch = ParallelBatch::prepare(&graph, Some(11), vec![passed(30), passed(31)], 2, 2).unwrap();
    let joined = batch
        .join(vec![ParallelChildOutcome::Failed(31), ParallelChildOutcome::Completed(30)])
        .unwrap();
    assert_eq!(joined, vec![ParallelChildOutcome::Completed(30), ParallelChildOutcome::Failed(31)]);
    assert_eq!(
        batch.join(vec![ParallelChildOutcome::Completed(30)]),
        Err(ParallelBatchError::InvalidJoin)
    );
    assert_eq!(
        batch.join(vec![ParallelChildOutcome::Completed(30), ParallelChildOutcome::Cancelled(30)]),
        Err(ParallelBatchError::InvalidJoin)
    );
    assert_eq!(
        batch.join(vec![ParallelChildOutcome::Completed(30), ParallelChildOutcome::Cancelled(32)]),
        Err(ParallelBatchError::InvalidJoin)
    );
    assert!(batch.cancel());
    assert!(!batch.cancel());
}
