//! Planning a bounded fan-out of child invocations from one parent, and
//! joining their outcomes back in the order the children were planned.
//! Nothing here runs a child: the batch only admits and orders them.
use crate::cycle_detection::CycleDecision;
use crate::depth_limit::DepthDecision;
use crate::ids::ProjectId;
use crate::invocation_graph::{holds, position, InvocationGraph, InvocationRequest};
use vstd::prelude::*;

verus! {

#[derive(Debug, Clone, Copy, PartialEq, Eq, Structural)]
pub enum ParallelBatchError {
    InvalidLimit,
    PreflightRejected,
    Duplicate,
    ScopeMismatch,
    GraphIncomplete,
    InvalidJoin,
}

/// How one child ended, by its invocation id.
#[derive(Debug, Clone, Copy, PartialEq, Eq, Structural)]
pub enum ParallelChildOutcome {
    Completed(u128),
    Failed(u128),
    Cancelled(u128),
}

pub open spec fn outcome_id_of(o: ParallelChildOutcome) -> u128 {
    match o {
        ParallelChildOutcome::Completed(id) => id,
        ParallelChildOutcome::Failed(id) => id,
        ParallelChildOutcome::Cancelled(id) => id,
    }
}

fn outcome_id(outcome: &ParallelChildOutcome) -> (r: u128)
    ensures
        r == outcome_id_of(*outcome),
{
    match outcome {
        ParallelChildOutcome::Completed(id) => *id,
        ParallelChildOutcome::Failed(id) => *id,
        ParallelChildOutcome::Cancelled(id) => *id,
    }
}

/// A candidate child with the verdicts of its two preflights.
pub type Candidate = (InvocationRequest, CycleDecision, DepthDecision);

/// Why the `k`-th candidate is refused, given those before it: a refused
/// request or preflight, an id already planned, or another project than
/// the parent's.
pub open spec fn candidate_fault(cands: Seq<Candidate>, k: int, parent_project: Option<ProjectId>) -> Option<
    ParallelBatchError,
> {
    let (request, cycle, depth) = cands[k];
    if !request.accepted || cycle != CycleDecision::Pass || !(depth is Pass) {
        Some(ParallelBatchError::PreflightRejected)
    } else if exists|j: int| 0 <= j < k && #[trigger] cands[j].0.invocation_id == request.invocation_id {
        Some(ParallelBatchError::Duplicate)
    } else if parent_project is Some && parent_project->Some_0 != request.project_id {
        Some(ParallelBatchError::ScopeMismatch)
    } else {
        None
    }
}

/// The first refusal among the first `n` candidates, taken in order.
pub open spec fn scan_fault(cands: Seq<Candidate>, n: int, parent_project: Option<ProjectId>) -> Option<
    ParallelBatchError,
>
    decreases n,
{
    if n <= 0 {
        None
    } else {
        match scan_fault(cands, n - 1, parent_project) {
            Some(e) => Some(e),
            None => candidate_fault(cands, n - 1, parent_project),
        }
    }
}

/// Why a batch cannot be prepared, if it cannot: a zero limit or more
/// candidates than the fan-out allows, a parent missing from the graph,
/// then the first refused candidate.
pub open spec fn prepare_fault(
    nodes: Seq<crate::invocation_graph::InvocationNode>,
    parent: Option<u128>,
    cands: Seq<Candidate>,
    max_fanout: usize,
    concurrency_limit: usize,
) -> Option<ParallelBatchError> {
    if max_fanout == 0 || concurrency_limit == 0 || cands.len() > max_fanout {
        Some(ParallelBatchError::InvalidLimit)
    } else if parent is Some && !holds(nodes, parent->Some_0) {
        Some(ParallelBatchError::GraphIncomplete)
    } else {
        scan_fault(cands, cands.len() as int, parent_project(nodes, parent))
    }
}

/// The project of the parent, when there is one.
pub open spec fn parent_project(nodes: Seq<crate::invocation_graph::InvocationNode>, parent: Option<
    u128,
>) -> Option<ProjectId> {
    match parent {
        Some(p) => Some(nodes[position(nodes, p)].request.project_id),
        None => None,
    }
}

/// Whether a set of outcomes answers every child exactly once.
pub open spec fn join_matches(ids: Seq<u128>, outcomes: Seq<ParallelChildOutcome>) -> bool {
    &&& outcomes.len() == ids.len()
    &&& forall|a: int, b: int|
        0 <= a < b < outcomes.len() ==> outcome_id_of(#[trigger] outcomes[a]) != outcome_id_of(
            #[trigger] outcomes[b],
        )
    &&& forall|i: int| 0 <= i < ids.len() ==> answered(outcomes, #[trigger] ids[i])
}

/// Whether some outcome is for this invocation.
pub open spec fn answered(outcomes: Seq<ParallelChildOutcome>, id: u128) -> bool {
    exists|j: int| 0 <= j < outcomes.len() && outcome_id_of(#[trigger] outcomes[j]) == id
}

/// The children of a prepared batch, their concurrency limit, and whether
/// the batch was cancelled.
pub struct ParallelBatch {
    children: Vec<InvocationRequest>,
    concurrency_limit: usize,
    cancelled: bool,
}

impl ParallelBatch {
    pub closed spec fn children(&self) -> Seq<InvocationRequest> {
        self.children@
    }

    /// The children's invocation ids, in planning order.
    pub closed spec fn child_ids(&self) -> Seq<u128> {
        self.children@.map_values(|c: InvocationRequest| c.invocation_id)
    }

    pub closed spec fn limit(&self) -> usize {
        self.concurrency_limit
    }

    pub closed spec fn is_cancelled(&self) -> bool {
        self.cancelled
    }

    /// A prepared batch plans each child once; every batch is one.
    #[verifier::type_invariant]
    pub closed spec fn wf(&self) -> bool {
        forall|a: int, b: int|
            0 <= a < b < self.children@.len() ==> #[trigger] self.children@[a].invocation_id
                != #[trigger] self.children@[b].invocation_id
    }

    /// Admits the candidates as one batch of children of `parent`, in the
    /// order given; refused as `prepare_fault` says.
    pub fn prepare(
        graph: &InvocationGraph,
        parent: Option<u128>,
        candidates: Vec<Candidate>,
        max_fanout: usize,
        concurrency_limit: usize,
    ) -> (r: Result<Self, ParallelBatchError>)
        ensures
            match prepare_fault(graph.nodes(), parent, candidates@, max_fanout, concurrency_limit) {
                Some(e) => r matches Err(x) && x == e,
                None => r matches Ok(b) && b.children() == candidates@.map_values(
                    |c: Candidate| c.0,
                ) && b.limit() == concurrency_limit && !b.is_cancelled(),
            },
    {
        proof {
            use_type_invariant(graph);
        }
        if max_fanout == 0 || concurrency_limit == 0 || candidates.len() > max_fanout {
            return Err(ParallelBatchError::InvalidLimit);
        }
        let project: Option<ProjectId> = match parent {
            None => None,
            Some(p) => match graph.request(p) {
                None => {
                    return Err(ParallelBatchError::GraphIncomplete);
                },
                Some(request) => Some(request.project_id),
            },
        };
        let ghost cands = candidates@;
        let ghost pp = parent_project(graph.nodes(), parent);
        let mut children: Vec<InvocationRequest> = Vec::new();
        let mut k: usize = 0;
        while k < candidates.len()
            invariant
                cands == candidates@,
                project == pp,
                pp == parent_project(graph.nodes(), parent),
                !(max_fanout == 0 || concurrency_limit == 0 || cands.len() > max_fanout),
                !(parent is Some && !holds(graph.nodes(), parent->Some_0)),
                k <= cands.len(),
                scan_fault(cands, k as int, pp) is None,
                children@ == cands.take(k as int).map_values(|c: Candidate| c.0),
            decreases cands.len() - k,
        {
            let (request, cycle, depth) = candidates[k];
            let depth_passed = match depth {
                DepthDecision::Pass { .. } => true,
                _ => false,
            };
            proof {
                assert((request, cycle, depth) == cands[k as int]);
            }
            if !request.accepted || cycle != CycleDecision::Pass || !depth_passed {
                proof {
                    lemma_scan_first(cands, k as int, cands.len() as int, pp);
                }
                return Err(ParallelBatchError::PreflightRejected);
            }
            let mut j: usize = 0;
            while j < children.len()
                invariant
                    j <= children@.len(),
                    children@ == cands.take(k as int).map_values(|c: Candidate| c.0),
                    k < cands.len(),
                    request == cands[k as int].0,
                    request.accepted && cands[k as int].1 == CycleDecision::Pass && cands[k as int].2 is Pass,
                    scan_fault(cands, k as int, pp) is None,
                    cands == candidates@,
                    pp == parent_project(graph.nodes(), parent),
                    project == pp,
                    !(max_fanout == 0 || concurrency_limit == 0 || cands.len() > max_fanout),
                    !(parent is Some && !holds(graph.nodes(), parent->Some_0)),
                    forall|i: int| 0 <= i < j ==> #[trigger] cands[i].0.invocation_id
                        != request.invocation_id,
                decreases children@.len() - j,
            {
                if children[j].invocation_id == request.invocation_id {
                    assert(cands[j as int].0.invocation_id == request.invocation_id);
                    proof {
                        lemma_scan_first(cands, k as int, cands.len() as int, pp);
                    }
                    return Err(ParallelBatchError::Duplicate);
                }
                assert(children@[j as int] == cands[j as int].0);
                j = j + 1;
            }
            assert(j == k);
            match project {
                Some(p) => {
                    if p != request.project_id {
                        proof {
                            lemma_scan_first(cands, k as int, cands.len() as int, pp);
                        }
                        return Err(ParallelBatchError::ScopeMismatch);
                    }
                },
                None => {},
            }
            children.push(request);
            k = k + 1;
            assert(cands.take(k as int).map_values(|c: Candidate| c.0) =~= cands.take(
                (k - 1) as int,
            ).map_values(|c: Candidate| c.0).push(cands[k - 1].0));
        }
        assert(cands.take(k as int) =~= cands);
        proof {
            assert forall|a: int, b: int|
                0 <= a < b < children@.len() implies #[trigger] children@[a].invocation_id
                != #[trigger] children@[b].invocation_id by {
                lemma_scan_clean(cands, cands.len() as int, pp, b);
                assert(children@[a] == cands[a].0);
                assert(children@[b] == cands[b].0);
            }
        }
        Ok(ParallelBatch { children, concurrency_limit, cancelled: false })
    }

    /// How many children the batch plans.
    pub fn len(&self) -> (r: usize)
        ensures
            r == self.children().len(),
    {
        self.children.len()
    }

    pub fn is_empty(&self) -> (r: bool)
        ensures
            r == (self.children().len() == 0),
    {
        self.children.len() == 0
    }

    pub fn concurrency_limit(&self) -> (r: usize)
        ensures
            r == self.limit(),
    {
        self.concurrency_limit
    }

    /// The children's invocation ids, in planning order.
    pub fn ids(&self) -> (r: Vec<u128>)
        ensures
            r@ == self.child_ids(),
    {
        let mut out: Vec<u128> = Vec::new();
        let mut i: usize = 0;
        while i < self.children.len()
            invariant
                i <= self.children@.len(),
                out@ == self.children@.take(i as int).map_values(|c: InvocationRequest| c.invocation_id),
            decreases self.children@.len() - i,
        {
            out.push(self.children[i].invocation_id);
            i = i + 1;
            assert(self.children@.take(i as int).map_values(|c: InvocationRequest| c.invocation_id)
                =~= self.children@.take((i - 1) as int).map_values(
                |c: InvocationRequest| c.invocation_id,
            ).push(self.children@[i - 1].invocation_id));
        }
        assert(self.children@.take(i as int) =~= self.children@);
        out
    }

    /// Cancels the batch; whether it was still running.
    pub fn cancel(&mut self) -> (r: bool)
        ensures
            r == !old(self).is_cancelled(),
            final(self).is_cancelled(),
            final(self).children() == old(self).children(),
            final(self).limit() == old(self).limit(),
    {
        proof {
            use_type_invariant(&*self);
        }
        if self.cancelled {
            return false;
        }
        self.cancelled = true;
        true
    }

    /// The children's outcomes in planning order. Refused unless there is
    /// exactly one outcome for each child.
    pub fn join(&self, outcomes: Vec<ParallelChildOutcome>) -> (r: Result<
        Vec<ParallelChildOutcome>,
        ParallelBatchError,
    >)
        ensures
            join_matches(self.child_ids(), outcomes@) ==> (r matches Ok(v) && v@.len()
                == self.child_ids().len() && forall|i: int|
                0 <= i < v@.len() ==> outcome_id_of(#[trigger] v@[i]) == self.child_ids()[i]
                    && outcomes@.contains(v@[i])),
            !join_matches(self.child_ids(), outcomes@) ==> r == Err::<
                Vec<ParallelChildOutcome>,
                ParallelBatchError,
            >(ParallelBatchError::InvalidJoin),
    {
        proof {
            use_type_invariant(self);
        }
        let ghost ids = self.child_ids();
        if outcomes.len() != self.children.len() {
            return Err(ParallelBatchError::InvalidJoin);
        }
        let mut a: usize = 0;
        while a < outcomes.len()
            invariant
                a <= outcomes@.len(),
                forall|x: int, y: int|
                    0 <= x < y < outcomes@.len() && x < a ==> outcome_id_of(#[trigger] outcomes@[x])
                        != outcome_id_of(#[trigger] outcomes@[y]),
            decreases outcomes@.len() - a,
        {
            let ida = outcome_id(&outcomes[a]);
            let mut b: usize = a + 1;
            while b < outcomes.len()
                invariant
                    a < b <= outcomes@.len(),
                    ida == outcome_id_of(outcomes@[a as int]),
                    forall|x: int, y: int|
                        0 <= x < y < outcomes@.len() && x < a ==> outcome_id_of(
                            #[trigger] outcomes@[x],
                        ) != outcome_id_of(#[trigger] outcomes@[y]),
                    forall|y: int|
                        a < y < b ==> ida != outcome_id_of(#[trigger] outcomes@[y]),
                decreases outcomes@.len() - b,
            {
                if outcome_id(&outcomes[b]) == ida {
                    assert(!join_matches(ids, outcomes@)) by {
                        assert(outcome_id_of(outcomes@[a as int]) == outcome_id_of(
                            outcomes@[b as int],
                        ));
                    }
                    return Err(ParallelBatchError::InvalidJoin);
                }
                b = b + 1;
            }
            a = a + 1;
        }
        let mut out: Vec<ParallelChildOutcome> = Vec::new();
        let ghost mut witness: Seq<int> = Seq::empty();
        let mut i: usize = 0;
        while i < self.children.len()
            invariant
                i <= self.children@.len(),
                ids == self.child_ids(),
                ids.len() == self.children@.len(),
                outcomes@.len() == ids.len(),
                forall|x: int, y: int|
                    0 <= x < y < outcomes@.len() ==> outcome_id_of(#[trigger] outcomes@[x])
                        != outcome_id_of(#[trigger] outcomes@[y]),
                out@.len() == i,
                witness.len() == i,
                forall|x: int|
                    #![trigger witness[x]]
                    #![trigger out@[x]]
                    0 <= x < i ==> 0 <= witness[x] < outcomes@.len() && out@[x]
                        == outcomes@[witness[x]] && outcome_id_of(out@[x]) == ids[x],
            decreases self.children@.len() - i,
        {
            let want = self.children[i].invocation_id;
            assert(want == ids[i as int]);
            let mut j: usize = 0;
            let mut found: Option<usize> = None;
            while j < outcomes.len()
                invariant
                    j <= outcomes@.len(),
                    match found {
                        Some(f) => f < outcomes@.len() && outcome_id_of(outcomes@[f as int]) == want,
                        None => forall|y: int|
                            0 <= y < j ==> outcome_id_of(#[trigger] outcomes@[y]) != want,
                    },
                decreases outcomes@.len() - j,
            {
                if found.is_none() && outcome_id(&outcomes[j]) == want {
                    found = Some(j);
                }
                j = j + 1;
            }
            match found {
                None => {
                    assert(!join_matches(ids, outcomes@)) by {
                        if join_matches(ids, outcomes@) {
                            assert(answered(outcomes@, ids[i as int]));
                            let w = choose|w: int|
                                0 <= w < outcomes@.len() && outcome_id_of(#[trigger] outcomes@[w])
                                    == ids[i as int];
                            assert(outcome_id_of(outcomes@[w]) != want);
                        }
                    }
                    return Err(ParallelBatchError::InvalidJoin);
                },
                Some(f) => {
                    let o = outcomes[f];
                    out.push(o);
                    proof {
                        witness = witness.push(f as int);
                    }
                },
            }
            i = i + 1;
        }
        proof {
            assert forall|x: int| 0 <= x < ids.len() implies answered(outcomes@, #[trigger] ids[x]) by {
                assert(outcome_id_of(outcomes@[witness[x]]) == ids[x]);
            }
            assert forall|x: int| 0 <= x < out@.len() implies outcomes@.contains(#[trigger] out@[x]) by {
                assert(outcomes@[witness[x]] == out@[x]);
            }
            assert(join_matches(ids, outcomes@));
            assert(forall|x: int| 0 <= x < out@.len() ==> outcome_id_of(#[trigger] out@[x]) == ids[x]);
        }
        Ok(out)
    }
}

/// Once a candidate is refused after a clean scan of those before it, that
/// refusal is the first one of every longer scan.
proof fn lemma_scan_first(cands: Seq<Candidate>, k: int, n: int, pp: Option<ProjectId>)
    requires
        0 <= k < n,
        scan_fault(cands, k, pp) is None,
    ensures
        scan_fault(cands, n, pp) == (match scan_fault(cands, k + 1, pp) {
            Some(e) => Some(e),
            None => scan_fault(cands, n, pp),
        }),
    decreases n,
{
    if n > k + 1 {
        lemma_scan_first(cands, k, n - 1, pp);
    }
}

/// A clean scan of `n` candidates leaves every candidate before `b` with
/// another id than the one at `b`.
proof fn lemma_scan_clean(cands: Seq<Candidate>, n: int, pp: Option<ProjectId>, b: int)
    requires
        scan_fault(cands, n, pp) is None,
        0 <= b < n,
    ensures
        forall|a: int| 0 <= a < b ==> #[trigger] cands[a].0.invocation_id != cands[b].0.invocation_id,
    decreases n,
{
    if b < n - 1 {
        lemma_scan_clean(cands, n - 1, pp, b);
    } else {
        assert(candidate_fault(cands, b, pp) is None);
    }
}

} // verus!
