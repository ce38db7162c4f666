//! The bounded ancestry graph of agent invocations, and the two read-only
//! preflights run against it before a new invocation is admitted: one
//! refuses a call that would re-enter an agent already on its ancestry, the
//! other one that would nest deeper than allowed.
//!
//! Nodes are kept in registration order. A node's parent is always
//! registered before it, so walking up from any node visits strictly
//! earlier nodes and ends.
use crate::ids::{AgentId, ProjectId};
use vstd::prelude::*;

verus! {

/// Most invocations one graph holds.
pub const MAX_INVOCATION_GRAPH_NODES: usize = 256;

#[derive(Debug, Clone, Copy, PartialEq, Eq, Structural)]
pub enum InvocationNodeStatus {
    Pending,
    Running,
    Completed,
    Failed,
    Cancelled,
}

#[derive(Debug, Clone, Copy, PartialEq, Eq, Structural)]
pub enum InvocationGraphError {
    InvalidRequest,
    MissingParent,
    ScopeMismatch,
    Duplicate,
    NodeLimit,
}

/// An invocation as the protocol hands it over: who calls whom, in which
/// project, at which nesting depth, in which state, and whether the
/// protocol's own validation accepted it.
#[derive(Debug, Clone, Copy, PartialEq, Eq, Structural)]
pub struct InvocationRequest {
    pub invocation_id: u128,
    pub project_id: ProjectId,
    pub caller_id: AgentId,
    pub callee_id: AgentId,
    pub depth: u16,
    pub status: InvocationNodeStatus,
    pub accepted: bool,
}

/// A registered invocation, the invocation it was made from, and its state.
#[derive(Debug, Clone, Copy, PartialEq, Eq, Structural)]
pub struct InvocationNode {
    pub request: InvocationRequest,
    pub parent: Option<u128>,
    pub status: InvocationNodeStatus,
}

/// Whether some node carries this invocation id.
pub open spec fn holds(nodes: Seq<InvocationNode>, id: u128) -> bool {
    exists|i: int| 0 <= i < nodes.len() && #[trigger] nodes[i].request.invocation_id == id
}

/// Where the node with this id stands (meaningful when `holds`).
pub open spec fn position(nodes: Seq<InvocationNode>, id: u128) -> int {
    choose|i: int| 0 <= i < nodes.len() && #[trigger] nodes[i].request.invocation_id == id
}

/// A graph as registration leaves it: bounded, one node per id, and every
/// parent an earlier node of the same project.
pub open spec fn graph_wf(nodes: Seq<InvocationNode>) -> bool {
    &&& nodes.len() <= MAX_INVOCATION_GRAPH_NODES
    &&& forall|i: int, j: int|
        0 <= i < j < nodes.len() ==> #[trigger] nodes[i].request.invocation_id
            != #[trigger] nodes[j].request.invocation_id
    &&& forall|i: int|
        0 <= i < nodes.len() && #[trigger] nodes[i].parent is Some ==> exists|j: int|
            0 <= j < i && nodes[j].request.invocation_id == nodes[i].parent->Some_0
                && nodes[j].request.project_id == nodes[i].request.project_id
}

/// Why registering a request is refused, if it is.
pub open spec fn register_fault(
    nodes: Seq<InvocationNode>,
    request: InvocationRequest,
    parent: Option<u128>,
) -> Option<InvocationGraphError> {
    if !request.accepted {
        Some(InvocationGraphError::InvalidRequest)
    } else if holds(nodes, request.invocation_id) {
        Some(InvocationGraphError::Duplicate)
    } else if nodes.len() >= MAX_INVOCATION_GRAPH_NODES {
        Some(InvocationGraphError::NodeLimit)
    } else {
        match parent {
            None => None,
            Some(p) => if !holds(nodes, p) {
                Some(InvocationGraphError::MissingParent)
            } else if nodes[position(nodes, p)].request.project_id != request.project_id {
                Some(InvocationGraphError::ScopeMismatch)
            } else {
                None
            },
        }
    }
}

/// Whether cancelling this invocation changes anything: it is registered
/// and not cancelled yet.
pub open spec fn cancellable(nodes: Seq<InvocationNode>, id: u128) -> bool {
    holds(nodes, id) && nodes[position(nodes, id)].status != InvocationNodeStatus::Cancelled
}

/// The graph after cancelling an invocation.
pub open spec fn cancelled(nodes: Seq<InvocationNode>, id: u128) -> Seq<InvocationNode> {
    if cancellable(nodes, id) {
        let i = position(nodes, id);
        nodes.update(i, InvocationNode { status: InvocationNodeStatus::Cancelled, ..nodes[i] })
    } else {
        nodes
    }
}

/// In a well-formed graph, the node found for an id is the only one.
pub proof fn lemma_position_unique(nodes: Seq<InvocationNode>, id: u128, k: int)
    requires
        graph_wf(nodes),
        0 <= k < nodes.len(),
        nodes[k].request.invocation_id == id,
    ensures
        holds(nodes, id),
        position(nodes, id) == k,
{
    assert(holds(nodes, id));
    let p = position(nodes, id);
    if p != k {
        if p < k {
            assert(nodes[p].request.invocation_id != nodes[k].request.invocation_id);
        } else {
            assert(nodes[k].request.invocation_id != nodes[p].request.invocation_id);
        }
    }
}

/// In a well-formed graph, a node's parent stands strictly before it and
/// belongs to the same project.
pub proof fn lemma_parent_earlier(nodes: Seq<InvocationNode>, i: int)
    requires
        graph_wf(nodes),
        0 <= i < nodes.len(),
        nodes[i].parent is Some,
    ensures
        holds(nodes, nodes[i].parent->Some_0),
        position(nodes, nodes[i].parent->Some_0) < i,
        nodes[position(nodes, nodes[i].parent->Some_0)].request.project_id
            == nodes[i].request.project_id,
{
    let j = choose|j: int|
        0 <= j < i && nodes[j].request.invocation_id == nodes[i].parent->Some_0
            && nodes[j].request.project_id == nodes[i].request.project_id;
    lemma_position_unique(nodes, nodes[i].parent->Some_0, j);
}

/// The ancestry graph of a run of invocations.
pub struct InvocationGraph {
    nodes: Vec<InvocationNode>,
}

impl InvocationGraph {
    /// The registered invocations, in registration order.
    pub closed spec fn nodes(&self) -> Seq<InvocationNode> {
        self.nodes@
    }

    /// Every graph is well formed: registration keeps it so.
    #[verifier::type_invariant]
    pub open spec fn inv(self) -> bool {
        graph_wf(self.nodes())
    }

    /// An empty graph.
    pub fn new() -> (r: Self)
        ensures
            r.nodes() == Seq::<InvocationNode>::empty(),
    {
        InvocationGraph { nodes: Vec::new() }
    }

    /// Where the invocation with this id stands, if it is registered.
    fn find(&self, id: u128) -> (r: Option<usize>)
        requires
            graph_wf(self.nodes()),
        ensures
            match r {
                Some(i) => holds(self.nodes(), id) && i == position(self.nodes(), id) && i
                    < self.nodes().len(),
                None => !holds(self.nodes(), id),
            },
    {
        let mut i: usize = 0;
        while i < self.nodes.len()
            invariant
                i <= self.nodes@.len(),
                graph_wf(self.nodes@),
                forall|k: int| 0 <= k < i ==> #[trigger] self.nodes@[k].request.invocation_id != id,
            decreases self.nodes@.len() - i,
        {
            if self.nodes[i].request.invocation_id == id {
                proof {
                    lemma_position_unique(self.nodes@, id, i as int);
                }
                return Some(i);
            }
            i = i + 1;
        }
        None
    }

    /// Registers an accepted invocation made from a registered parent of
    /// the same project, or from none. Refused, and the graph left as it
    /// was: a request the protocol refused, an id already registered, a
    /// full graph, a parent that is not registered, or one of another
    /// project, in this order.
    pub fn register(&mut self, request: InvocationRequest, parent: Option<u128>) -> (r: Result<
        (),
        InvocationGraphError,
    >)
        ensures
            match register_fault(old(self).nodes(), request, parent) {
                Some(e) => r == Err::<(), InvocationGraphError>(e) && final(self).nodes()
                    == old(self).nodes(),
                None => r is Ok && final(self).nodes() == old(self).nodes().push(
                    InvocationNode { request, parent, status: request.status },
                ),
            },
    {
        proof {
            use_type_invariant(&*self);
        }
        if !request.accepted {
            return Err(InvocationGraphError::InvalidRequest);
        }
        if self.find(request.invocation_id).is_some() {
            return Err(InvocationGraphError::Duplicate);
        }
        if self.nodes.len() >= MAX_INVOCATION_GRAPH_NODES {
            return Err(InvocationGraphError::NodeLimit);
        }
        match parent {
            Some(p) => match self.find(p) {
                None => {
                    return Err(InvocationGraphError::MissingParent);
                },
                Some(j) => {
                    if self.nodes[j].request.project_id != request.project_id {
                        return Err(InvocationGraphError::ScopeMismatch);
                    }
                },
            },
            None => {},
        }
        let ghost before = self.nodes@;
        let node = InvocationNode { request, parent, status: request.status };
        let mut nodes: Vec<InvocationNode> = Vec::new();
        std::mem::swap(&mut nodes, &mut self.nodes);
        nodes.push(node);
        proof {
            let after = nodes@;
            assert forall|i: int, j: int|
                0 <= i < j < after.len() implies #[trigger] after[i].request.invocation_id
                != #[trigger] after[j].request.invocation_id by {
                if j == after.len() - 1 {
                    assert(before[i].request.invocation_id == after[i].request.invocation_id);
                } else {
                    assert(before[i] == after[i] && before[j] == after[j]);
                }
            }
            assert forall|i: int|
                0 <= i < after.len() && #[trigger] after[i].parent is Some implies exists|j: int|
                0 <= j < i && after[j].request.invocation_id == after[i].parent->Some_0
                    && after[j].request.project_id == after[i].request.project_id by {
                if i == after.len() - 1 {
                    let j = position(before, parent->Some_0);
                    assert(after[j] == before[j]);
                } else {
                    assert(after[i] == before[i]);
                    let j = choose|j: int|
                        0 <= j < i && before[j].request.invocation_id == before[i].parent->Some_0
                            && before[j].request.project_id == before[i].request.project_id;
                    assert(after[j] == before[j]);
                }
            }
        }
        self.nodes = nodes;
        Ok(())
    }

    /// The registered request with this id.
    pub fn request(&self, id: u128) -> (r: Option<InvocationRequest>)
        ensures
            r == (if holds(self.nodes(), id) {
                Some(self.nodes()[position(self.nodes(), id)].request)
            } else {
                None
            }),
    {
        proof {
            use_type_invariant(self);
        }
        match self.find(id) {
            Some(i) => Some(self.nodes[i].request),
            None => None,
        }
    }

    /// The state of the invocation with this id.
    pub fn status(&self, id: u128) -> (r: Option<InvocationNodeStatus>)
        ensures
            r == (if holds(self.nodes(), id) {
                Some(self.nodes()[position(self.nodes(), id)].status)
            } else {
                None
            }),
    {
        proof {
            use_type_invariant(self);
        }
        match self.find(id) {
            Some(i) => Some(self.nodes[i].status),
            None => None,
        }
    }

    /// The parent of the invocation with this id: `None` when it is not
    /// registered, `Some(None)` for a root.
    pub fn parent(&self, id: u128) -> (r: Option<Option<u128>>)
        ensures
            r == (if holds(self.nodes(), id) {
                Some(self.nodes()[position(self.nodes(), id)].parent)
            } else {
                None
            }),
    {
        proof {
            use_type_invariant(self);
        }
        match self.find(id) {
            Some(i) => Some(self.nodes[i].parent),
            None => None,
        }
    }

    /// Marks a registered invocation cancelled; whether that changed it.
    pub fn cancel(&mut self, id: u128) -> (r: bool)
        ensures
            r == cancellable(old(self).nodes(), id),
            final(self).nodes() == cancelled(old(self).nodes(), id),
    {
        proof {
            use_type_invariant(&*self);
        }
        match self.find(id) {
            None => false,
            Some(i) => {
                let node = self.nodes[i];
                if node.status == InvocationNodeStatus::Cancelled {
                    return false;
                }
                let ghost before = self.nodes@;
                let mut nodes: Vec<InvocationNode> = Vec::new();
                std::mem::swap(&mut nodes, &mut self.nodes);
                nodes.set(i, InvocationNode { status: InvocationNodeStatus::Cancelled, ..node });
                proof {
                    let after = nodes@;
                    assert forall|a: int, b: int|
                        0 <= a < b < after.len() implies #[trigger] after[a].request.invocation_id
                        != #[trigger] after[b].request.invocation_id by {
                        assert(after[a].request == before[a].request);
                        assert(after[b].request == before[b].request);
                    }
                    assert forall|k: int|
                        0 <= k < after.len() && #[trigger] after[k].parent is Some implies exists|
                        j: int,
                    |
                        0 <= j < k && after[j].request.invocation_id == after[k].parent->Some_0
                            && after[j].request.project_id == after[k].request.project_id by {
                        assert(after[k].parent == before[k].parent);
                        let j = choose|j: int|
                            0 <= j < k && before[j].request.invocation_id
                                == before[k].parent->Some_0 && before[j].request.project_id
                                == before[k].request.project_id;
                        assert(after[j].request == before[j].request);
                    }
                }
                self.nodes = nodes;
                true
            },
        }
    }
}

/// Cancelling is done once: a second cancel of the same invocation changes
/// nothing and reports so.
pub proof fn law_cancel_is_idempotent(nodes: Seq<InvocationNode>, id: u128)
    requires
        graph_wf(nodes),
    ensures
        !cancellable(cancelled(nodes, id), id),
        cancelled(cancelled(nodes, id), id) == cancelled(nodes, id),
{
    if cancellable(nodes, id) {
        let i = position(nodes, id);
        let after = cancelled(nodes, id);
        assert(after[i].request.invocation_id == id);
        assert(graph_wf(after)) by {
            assert forall|a: int, b: int|
                0 <= a < b < after.len() implies #[trigger] after[a].request.invocation_id
                != #[trigger] after[b].request.invocation_id by {
                assert(after[a].request == nodes[a].request);
                assert(after[b].request == nodes[b].request);
            }
            assert forall|k: int|
                0 <= k < after.len() && #[trigger] after[k].parent is Some implies exists|j: int|
                0 <= j < k && after[j].request.invocation_id == after[k].parent->Some_0
                    && after[j].request.project_id == after[k].request.project_id by {
                let j = choose|j: int|
                    0 <= j < k && nodes[j].request.invocation_id == nodes[k].parent->Some_0
                        && nodes[j].request.project_id == nodes[k].request.project_id;
                assert(after[j].request == nodes[j].request);
            }
        }
        lemma_position_unique(after, id, i);
    }
}

} // verus!
