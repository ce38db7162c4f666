//! The depth preflight: a new invocation must state the nesting depth its
//! ancestry really has, and that depth may not pass the limit.
use crate::invocation_graph::{
    graph_wf, holds, lemma_parent_earlier, position, InvocationGraph, InvocationNode,
    InvocationRequest,
};
use vstd::prelude::*;

verus! {

#[derive(Debug, Clone, Copy, PartialEq, Eq, Structural)]
pub enum DepthDecision {
    Pass { depth: u16 },
    RejectDepthLimit,
    RejectDepthMismatch,
    RejectGraphIncomplete,
}

/// How many invocations lie on the ancestry from the node at `i` up to its
/// root, or `None` where an ancestor is missing or belongs to another
/// project than the candidate.
pub open spec fn depth_walk(nodes: Seq<InvocationNode>, i: int, candidate: InvocationRequest) -> Option<
    nat,
>
    decreases i,
{
    if !(0 <= i < nodes.len()) || nodes[i].request.project_id != candidate.project_id {
        None
    } else {
        match nodes[i].parent {
            None => Some(1),
            Some(p) => if holds(nodes, p) && position(nodes, p) < i {
                match depth_walk(nodes, position(nodes, p), candidate) {
                    Some(d) => Some(d + 1),
                    None => None,
                }
            } else {
                None
            },
        }
    }
}

/// The depth of the ancestry above a candidate made from `current`.
pub open spec fn ancestry_depth(
    nodes: Seq<InvocationNode>,
    current: Option<u128>,
    candidate: InvocationRequest,
) -> Option<nat> {
    match current {
        None => Some(0),
        Some(id) => if holds(nodes, id) {
            depth_walk(nodes, position(nodes, id), candidate)
        } else {
            None
        },
    }
}

/// The depth decision for a candidate made from `parent`: a zero limit or
/// a request the protocol refused is over the limit; then an incomplete
/// ancestry; then a stated depth over the limit, a stated depth that is
/// not the real one, a real depth over the limit, in this order.
pub open spec fn depth_decision(
    nodes: Seq<InvocationNode>,
    parent: Option<u128>,
    candidate: InvocationRequest,
    max_depth: u16,
) -> DepthDecision {
    if max_depth == 0 || !candidate.accepted {
        DepthDecision::RejectDepthLimit
    } else {
        match ancestry_depth(nodes, parent, candidate) {
            None => DepthDecision::RejectGraphIncomplete,
            Some(d) => if candidate.depth > max_depth {
                DepthDecision::RejectDepthLimit
            } else if candidate.depth != d {
                DepthDecision::RejectDepthMismatch
            } else if d > max_depth {
                DepthDecision::RejectDepthLimit
            } else {
                DepthDecision::Pass { depth: d as u16 }
            },
        }
    }
}

/// How far the walk can still go from an ancestor given by id.
pub open spec fn depth_rank(nodes: Seq<InvocationNode>, current: Option<u128>) -> int {
    match current {
        Some(id) => if holds(nodes, id) {
            position(nodes, id) + 1
        } else {
            0
        },
        None => 0,
    }
}

/// A known depth `k` more steps down.
pub open spec fn deeper(d: Option<nat>, k: nat) -> Option<nat> {
    match d {
        Some(x) => Some(x + k),
        None => None,
    }
}

pub struct DepthLimiter;

impl DepthLimiter {
    /// Decides whether a candidate made from `parent` nests within
    /// `max_depth` at the depth it states. A candidate that passes states
    /// exactly its ancestry's depth, which is within the limit.
    pub fn check(
        graph: &InvocationGraph,
        parent: Option<u128>,
        candidate: &InvocationRequest,
        max_depth: u16,
    ) -> (r: DepthDecision)
        ensures
            r == depth_decision(graph.nodes(), parent, *candidate, max_depth),
            r matches DepthDecision::Pass { depth } ==> depth == candidate.depth && depth
                <= max_depth && ancestry_depth(graph.nodes(), parent, *candidate) == Some(
                depth as nat,
            ),
    {
        proof {
            use_type_invariant(graph);
        }
        if max_depth == 0 || !candidate.accepted {
            return DepthDecision::RejectDepthLimit;
        }
        let ghost nodes = graph.nodes();
        let mut current = parent;
        let mut depth: u16 = 0;
        loop
            invariant
                nodes == graph.nodes(),
                graph_wf(nodes),
                max_depth != 0,
                candidate.accepted,
                depth + depth_rank(nodes, current) <= nodes.len(),
                deeper(ancestry_depth(nodes, current, *candidate), depth as nat) == ancestry_depth(
                    nodes,
                    parent,
                    *candidate,
                ),
            ensures
                ancestry_depth(nodes, parent, *candidate) == Some(depth as nat),
            decreases depth_rank(nodes, current),
        {
            let id = match current {
                None => {
                    break ;
                },
                Some(id) => id,
            };
            let node = match graph.request(id) {
                None => {
                    return DepthDecision::RejectGraphIncomplete;
                },
                Some(node) => node,
            };
            let ghost i = position(nodes, id);
            if node.project_id != candidate.project_id {
                return DepthDecision::RejectGraphIncomplete;
            }
            depth = depth + 1;
            let up = graph.parent(id);
            proof {
                if nodes[i].parent is Some {
                    lemma_parent_earlier(nodes, i);
                }
            }
            current = match up {
                Some(p) => p,
                None => None,
            };
        }
        if candidate.depth > max_depth {
            return DepthDecision::RejectDepthLimit;
        }
        if candidate.depth != depth {
            return DepthDecision::RejectDepthMismatch;
        }
        if depth > max_depth {
            return DepthDecision::RejectDepthLimit;
        }
        DepthDecision::Pass { depth }
    }
}

} // verus!
