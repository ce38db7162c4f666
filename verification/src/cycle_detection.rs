//! The cycle preflight: a new invocation may not call its own caller, nor
//! any agent that already calls or is called on its ancestry.
use crate::invocation_graph::{
    graph_wf, holds, lemma_parent_earlier, position, InvocationGraph, InvocationNode,
    InvocationRequest,
};
use vstd::prelude::*;

verus! {

#[derive(Debug, Clone, Copy, PartialEq, Eq, Structural)]
pub enum CycleDecision {
    Pass,
    RejectSelfLoop,
    RejectAncestorCycle { path_len: usize },
    RejectGraphIncomplete,
}

/// The walk up from the node at `i`, which stands `len` steps above the
/// candidate: the first ancestor outside the candidate's project makes the
/// graph incomplete, the first whose caller or callee is the candidate's
/// callee closes a cycle of that many steps, and reaching a root passes.
pub open spec fn cycle_walk(nodes: Seq<InvocationNode>, i: int, candidate: InvocationRequest, len: int)
    -> CycleDecision
    decreases i,
{
    if !(0 <= i < nodes.len()) {
        CycleDecision::RejectGraphIncomplete
    } else {
        let node = nodes[i].request;
        if node.project_id != candidate.project_id {
            CycleDecision::RejectGraphIncomplete
        } else if node.caller_id == candidate.callee_id || node.callee_id == candidate.callee_id {
            CycleDecision::RejectAncestorCycle { path_len: (len + 1) as usize }
        } else {
            match nodes[i].parent {
                None => CycleDecision::Pass,
                Some(p) => if holds(nodes, p) && position(nodes, p) < i {
                    cycle_walk(nodes, position(nodes, p), candidate, len + 1)
                } else {
                    CycleDecision::RejectGraphIncomplete
                },
            }
        }
    }
}

/// The walk starting at an ancestor given by id, `len` steps up.
pub open spec fn walk_from(
    nodes: Seq<InvocationNode>,
    current: Option<u128>,
    candidate: InvocationRequest,
    len: int,
) -> CycleDecision {
    match current {
        None => CycleDecision::Pass,
        Some(id) => if holds(nodes, id) {
            cycle_walk(nodes, position(nodes, id), candidate, len)
        } else {
            CycleDecision::RejectGraphIncomplete
        },
    }
}

/// The cycle decision for a candidate made from `parent`: a call of the
/// caller itself first, then a request the protocol refused, then the walk
/// up the ancestry.
pub open spec fn cycle_decision(
    nodes: Seq<InvocationNode>,
    parent: Option<u128>,
    candidate: InvocationRequest,
) -> CycleDecision {
    if candidate.caller_id == candidate.callee_id {
        CycleDecision::RejectSelfLoop
    } else if !candidate.accepted {
        CycleDecision::RejectGraphIncomplete
    } else {
        walk_from(nodes, parent, candidate, 0)
    }
}

/// How far the walk can still go from an ancestor given by id.
pub open spec fn rank(nodes: Seq<InvocationNode>, current: Option<u128>) -> int {
    match current {
        Some(id) => if holds(nodes, id) {
            position(nodes, id) + 1
        } else {
            0
        },
        None => 0,
    }
}

/// Whether an agent calls or is called anywhere on the ancestry from the
/// node at `i` up to its root.
pub open spec fn on_ancestry(nodes: Seq<InvocationNode>, i: int, agent: crate::ids::AgentId) -> bool
    decreases i,
{
    if !(0 <= i < nodes.len()) {
        false
    } else if nodes[i].request.caller_id == agent || nodes[i].request.callee_id == agent {
        true
    } else {
        match nodes[i].parent {
            None => false,
            Some(p) => holds(nodes, p) && position(nodes, p) < i && on_ancestry(
                nodes,
                position(nodes, p),
                agent,
            ),
        }
    }
}

/// A candidate that passes the cycle preflight calls no agent that calls
/// or is called anywhere on its ancestry, and is not a call of its caller
/// itself.
pub proof fn law_passing_candidate_closes_no_cycle(
    nodes: Seq<InvocationNode>,
    parent: Option<u128>,
    candidate: InvocationRequest,
)
    requires
        cycle_decision(nodes, parent, candidate) == CycleDecision::Pass,
    ensures
        candidate.caller_id != candidate.callee_id,
        parent matches Some(p) ==> holds(nodes, p) && !on_ancestry(
            nodes,
            position(nodes, p),
            candidate.callee_id,
        ),
{
    if let Some(p) = parent {
        lemma_walk_pass(nodes, position(nodes, p), candidate, 0);
    }
}

proof fn lemma_walk_pass(nodes: Seq<InvocationNode>, i: int, candidate: InvocationRequest, len: int)
    requires
        cycle_walk(nodes, i, candidate, len) == CycleDecision::Pass,
    ensures
        !on_ancestry(nodes, i, candidate.callee_id),
    decreases i,
{
    if 0 <= i < nodes.len() {
        if let Some(p) = nodes[i].parent {
            if holds(nodes, p) && position(nodes, p) < i {
                lemma_walk_pass(nodes, position(nodes, p), candidate, len + 1);
            }
        }
    }
}

pub struct CycleDetector;

impl CycleDetector {
    /// Decides whether a candidate invocation made from `parent` would
    /// close a cycle.
    pub fn check(graph: &InvocationGraph, parent: Option<u128>, candidate: &InvocationRequest) -> (r:
        CycleDecision)
        ensures
            r == cycle_decision(graph.nodes(), parent, *candidate),
    {
        proof {
            use_type_invariant(graph);
        }
        if candidate.caller_id == candidate.callee_id {
            return CycleDecision::RejectSelfLoop;
        }
        if !candidate.accepted {
            return CycleDecision::RejectGraphIncomplete;
        }
        let ghost nodes = graph.nodes();
        let mut current = parent;
        let mut path_len: usize = 0;
        loop
            invariant
                nodes == graph.nodes(),
                graph_wf(nodes),
                candidate.caller_id != candidate.callee_id,
                candidate.accepted,
                path_len + rank(nodes, current) <= nodes.len(),
                walk_from(nodes, current, *candidate, path_len as int) == walk_from(
                    nodes,
                    parent,
                    *candidate,
                    0,
                ),
            decreases rank(nodes, current),
        {
            let id = match current {
                None => {
                    return CycleDecision::Pass;
                },
                Some(id) => id,
            };
            let node = match graph.request(id) {
                None => {
                    return CycleDecision::RejectGraphIncomplete;
                },
                Some(node) => node,
            };
            let ghost i = position(nodes, id);
            if node.project_id != candidate.project_id {
                return CycleDecision::RejectGraphIncomplete;
            }
            path_len = path_len + 1;
            if node.caller_id == candidate.callee_id || node.callee_id == candidate.callee_id {
                return CycleDecision::RejectAncestorCycle { path_len };
            }
            let up = graph.parent(id);
            proof {
                if nodes[i].parent is Some {
                    lemma_parent_earlier(nodes, i);
                }
            }
            current = match up {
                Some(p) => p,
                None => None,
            };
        }
    }
}

} // verus!
