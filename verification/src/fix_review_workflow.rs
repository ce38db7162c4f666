//! Pure, bounded planning of fix-review cycles; creating tasks and
//! worktrees is left to the caller.
use crate::digest::{decimal, fingerprint, fingerprint_of, to_decimal};
use crate::text::{contains_control, has_control, text_len, utf8_len};
use vstd::prelude::*;
use vstd::string::StrSliceExecFns;
use vstd::string::StringSliceAdditionalSpecFns;

verus! {

/// The longest value, in bytes.
pub const MAX_TEXT: usize = 256;

/// The largest cycle cap.
pub const MAX_CYCLE_CAP: u32 = 32;

#[derive(Debug, Clone, Copy, PartialEq, Eq, Structural)]
pub enum FixReviewError {
    InvalidValue,
    StaleEvidence,
    InvalidCap,
    NotBlocker,
}

pub open spec fn fix_review_message(e: FixReviewError) -> Seq<char> {
    match e {
        FixReviewError::InvalidValue => "invalid fix-review value"@,
        FixReviewError::StaleEvidence => "review evidence is stale"@,
        FixReviewError::InvalidCap => "cycle cap is invalid"@,
        FixReviewError::NotBlocker => "finding is not a blocker"@,
    }
}

impl FixReviewError {
    /// The human-readable description of the error.
    pub fn message(&self) -> (r: &'static str)
        ensures
            r@ == fix_review_message(*self),
    {
        match self {
            FixReviewError::InvalidValue => "invalid fix-review value",
            FixReviewError::StaleEvidence => "review evidence is stale",
            FixReviewError::InvalidCap => "cycle cap is invalid",
            FixReviewError::NotBlocker => "finding is not a blocker",
        }
    }
}

/// A value: non-empty, at most 256 bytes, no control character.
pub open spec fn value_ok(s: Seq<char>) -> bool {
    s.len() > 0 && utf8_len(s) <= MAX_TEXT && !has_control(s)
}

fn check_value(s: &str) -> (r: bool)
    ensures
        r == value_ok(s@),
{
    s.unicode_len() > 0 && text_len(s) <= MAX_TEXT && !contains_control(s)
}

#[derive(Debug, Clone, PartialEq, Eq)]
pub struct FixReviewMapping {
    project: String,
    task: String,
    repository: String,
    worktree: String,
    branch: String,
    commit: String,
    tree: String,
    policy: String,
}

/// What a mapping holds.
pub struct MappingView {
    pub project: Seq<char>,
    pub task: Seq<char>,
    pub repository: Seq<char>,
    pub worktree: Seq<char>,
    pub branch: Seq<char>,
    pub commit: Seq<char>,
    pub tree: Seq<char>,
    pub policy: Seq<char>,
}

impl View for FixReviewMapping {
    type V = MappingView;

    closed spec fn view(&self) -> MappingView {
        MappingView {
            project: self.project@,
            task: self.task@,
            repository: self.repository@,
            worktree: self.worktree@,
            branch: self.branch@,
            commit: self.commit@,
            tree: self.tree@,
            policy: self.policy@,
        }
    }
}

impl FixReviewMapping {
    /// A mapping, kept only if every value is valid.
    #[allow(clippy::too_many_arguments)]
    pub fn new(
        project: &str,
        task: &str,
        repository: &str,
        worktree: &str,
        branch: &str,
        commit: &str,
        tree: &str,
        policy: &str,
    ) -> (r: Result<Self, FixReviewError>)
        ensures
            r is Ok <==> value_ok(project@) && value_ok(task@) && value_ok(repository@) && value_ok(
                worktree@,
            ) && value_ok(branch@) && value_ok(commit@) && value_ok(tree@) && value_ok(policy@),
            r matches Err(e) ==> e == FixReviewError::InvalidValue,
            r matches Ok(m) ==> m@ == (MappingView {
                project: project@,
                task: task@,
                repository: repository@,
                worktree: worktree@,
                branch: branch@,
                commit: commit@,
                tree: tree@,
                policy: policy@,
            }),
    {
        if !check_value(project) || !check_value(task) || !check_value(repository) || !check_value(
            worktree,
        ) || !check_value(branch) || !check_value(commit) || !check_value(tree) || !check_value(
            policy,
        ) {
            return Err(FixReviewError::InvalidValue);
        }
        Ok(FixReviewMapping {
            project: project.to_string(),
            task: task.to_string(),
            repository: repository.to_string(),
            worktree: worktree.to_string(),
            branch: branch.to_string(),
            commit: commit.to_string(),
            tree: tree.to_string(),
            policy: policy.to_string(),
        })
    }

    pub fn commit(&self) -> (r: &str)
        ensures
            r@ == self@.commit,
    {
        self.commit.as_str()
    }

    pub fn tree(&self) -> (r: &str)
        ensures
            r@ == self@.tree,
    {
        self.tree.as_str()
    }

    fn duplicate(&self) -> (r: Self)
        ensures
            r@ == self@,
    {
        FixReviewMapping {
            project: self.project.clone(),
            task: self.task.clone(),
            repository: self.repository.clone(),
            worktree: self.worktree.clone(),
            branch: self.branch.clone(),
            commit: self.commit.clone(),
            tree: self.tree.clone(),
            policy: self.policy.clone(),
        }
    }
}

#[derive(Debug, Clone, PartialEq, Eq)]
pub struct ReviewFinding {
    id: String,
    summary: String,
    commit: String,
    tree: String,
    review: String,
}

/// What a review finding holds.
pub struct FindingView {
    pub id: Seq<char>,
    pub summary: Seq<char>,
    pub commit: Seq<char>,
    pub tree: Seq<char>,
    pub review: Seq<char>,
}

impl View for ReviewFinding {
    type V = FindingView;

    closed spec fn view(&self) -> FindingView {
        FindingView {
            id: self.id@,
            summary: self.summary@,
            commit: self.commit@,
            tree: self.tree@,
            review: self.review@,
        }
    }
}

impl ReviewFinding {
    /// A blocking finding of review `review` on a commit and tree, kept only
    /// if every value is valid.
    pub fn blocker(id: &str, summary: &str, commit: &str, tree: &str, review: &str) -> (r: Result<
        Self,
        FixReviewError,
    >)
        ensures
            r is Ok <==> value_ok(id@) && value_ok(summary@) && value_ok(commit@) && value_ok(tree@)
                && value_ok(review@),
            r matches Err(e) ==> e == FixReviewError::InvalidValue,
            r matches Ok(f) ==> f@ == (FindingView {
                id: id@,
                summary: summary@,
                commit: commit@,
                tree: tree@,
                review: review@,
            }),
    {
        if !check_value(id) || !check_value(summary) || !check_value(commit) || !check_value(tree)
            || !check_value(review) {
            return Err(FixReviewError::InvalidValue);
        }
        Ok(ReviewFinding {
            id: id.to_string(),
            summary: summary.to_string(),
            commit: commit.to_string(),
            tree: tree.to_string(),
            review: review.to_string(),
        })
    }
}

#[derive(Debug, Clone, Copy, PartialEq, Eq, Structural)]
pub enum FixReviewState {
    CorrectionPlanned,
    Escalated,
}

#[derive(Debug, Clone, PartialEq, Eq)]
pub struct CorrectionTask {
    mapping: FixReviewMapping,
    finding_id: String,
    supersedes_review: String,
    next_cycle: u32,
}

impl CorrectionTask {
    pub closed spec fn mapping_of(&self) -> MappingView {
        self.mapping@
    }

    pub closed spec fn finding_id_of(&self) -> Seq<char> {
        self.finding_id@
    }

    pub closed spec fn supersedes_of(&self) -> Seq<char> {
        self.supersedes_review@
    }

    pub closed spec fn next_cycle_of(&self) -> u32 {
        self.next_cycle
    }

    pub fn mapping(&self) -> (r: &FixReviewMapping)
        ensures
            r@ == self.mapping_of(),
    {
        &self.mapping
    }

    pub fn supersedes_review(&self) -> (r: &str)
        ensures
            r@ == self.supersedes_of(),
    {
        self.supersedes_review.as_str()
    }
}

#[derive(Debug, Clone, PartialEq, Eq)]
pub struct FixReviewPlan {
    state: FixReviewState,
    task: Option<CorrectionTask>,
    next_cycle: u32,
    fingerprint: String,
}

impl FixReviewPlan {
    pub closed spec fn state_of(&self) -> FixReviewState {
        self.state
    }

    pub closed spec fn task_of(&self) -> Option<CorrectionTask> {
        self.task
    }

    pub closed spec fn next_cycle_of(&self) -> u32 {
        self.next_cycle
    }

    pub closed spec fn fingerprint_of(&self) -> Seq<char> {
        self.fingerprint@
    }

    pub fn state(&self) -> (r: FixReviewState)
        ensures
            r == self.state_of(),
    {
        self.state
    }

    pub fn task(&self) -> (r: Option<&CorrectionTask>)
        ensures
            r is Some <==> self.task_of() is Some,
            r matches Some(t) ==> self.task_of() == Some(*t),
    {
        match &self.task {
            Some(t) => Some(t),
            None => None,
        }
    }

    pub fn next_cycle(&self) -> (r: u32)
        ensures
            r == self.next_cycle_of(),
    {
        self.next_cycle
    }

    pub fn fingerprint(&self) -> (r: &str)
        ensures
            r@ == self.fingerprint_of(),
    {
        self.fingerprint.as_str()
    }
}

/// Why no plan can be made, if none can.
pub open spec fn plan_fault(m: MappingView, f: FindingView, cycle: u32, cap: u32) -> Option<
    FixReviewError,
> {
    if cap == 0 || cap > MAX_CYCLE_CAP || cycle > cap {
        Some(FixReviewError::InvalidCap)
    } else if f.commit != m.commit || f.tree != m.tree {
        Some(FixReviewError::StaleEvidence)
    } else {
        None
    }
}

/// The text a plan's fingerprint is computed over.
pub open spec fn plan_text(m: MappingView, f: FindingView, cycle: u32, cap: u32) -> Seq<char> {
    let head = f.id + ":"@ + m.task + ":"@ + decimal(cycle as nat) + ":"@;
    if cycle == cap {
        head + "escalated"@
    } else {
        head + f.summary
    }
}

/// The plan issued for a cycle below or at the cap.
pub open spec fn planned(p: FixReviewPlan, m: MappingView, f: FindingView, cycle: u32, cap: u32) -> bool {
    &&& p.fingerprint_of() == fingerprint_of(vstd::utf8::encode_utf8(plan_text(m, f, cycle, cap)))
    &&& if cycle == cap {
        &&& p.state_of() == FixReviewState::Escalated
        &&& p.task_of() is None
        &&& p.next_cycle_of() == cycle
    } else {
        &&& p.state_of() == FixReviewState::CorrectionPlanned
        &&& p.next_cycle_of() == cycle + 1
        &&& p.task_of() matches Some(t) && {
            &&& t.mapping_of() == m
            &&& t.finding_id_of() == f.id
            &&& t.supersedes_of() == f.review
            &&& t.next_cycle_of() == cycle + 1
        }
    }
}

pub struct FixReviewWorkflow;

impl FixReviewWorkflow {
    /// Plans the answer to a blocking finding on the mapping's commit: a
    /// correction task for the next cycle, or escalation once the cycle
    /// reaches the cap.
    pub fn plan(mapping: &FixReviewMapping, finding: &ReviewFinding, cycle: u32, cap: u32) -> (r:
        Result<FixReviewPlan, FixReviewError>)
        ensures
            match plan_fault(mapping@, finding@, cycle, cap) {
                Some(e) => r == Err::<FixReviewPlan, FixReviewError>(e),
                None => r matches Ok(p) && planned(p, mapping@, finding@, cycle, cap),
            },
    {
        if cap == 0 || cap > MAX_CYCLE_CAP || cycle > cap {
            return Err(FixReviewError::InvalidCap);
        }
        if finding.commit != mapping.commit || finding.tree != mapping.tree {
            return Err(FixReviewError::StaleEvidence);
        }
        let mut text = String::new();
        text.append(finding.id.as_str());
        text.append(":");
        text.append(mapping.task.as_str());
        text.append(":");
        let c = to_decimal(cycle as usize);
        text.append(c.as_str());
        text.append(":");
        if cycle == cap {
            text.append("escalated");
            assert(text@ =~= plan_text(mapping@, finding@, cycle, cap));
            return Ok(
                FixReviewPlan {
                    state: FixReviewState::Escalated,
                    task: None,
                    next_cycle: cycle,
                    fingerprint: fingerprint(text.as_str()),
                },
            );
        }
        text.append(finding.summary.as_str());
        assert(text@ =~= plan_text(mapping@, finding@, cycle, cap));
        let task = CorrectionTask {
            mapping: mapping.duplicate(),
            finding_id: finding.id.clone(),
            supersedes_review: finding.review.clone(),
            next_cycle: cycle + 1,
        };
        Ok(
            FixReviewPlan {
                state: FixReviewState::CorrectionPlanned,
                task: Some(task),
                next_cycle: cycle + 1,
                fingerprint: fingerprint(text.as_str()),
            },
        )
    }
}

/// Fix-review cycles are bounded: a plan never moves past the cap, it
/// escalates without a correction task exactly at the cap, and below the
/// cap the correction task carries the plan's next cycle.
pub proof fn law_cycles_stop_at_the_cap(
    p: FixReviewPlan,
    m: MappingView,
    f: FindingView,
    cycle: u32,
    cap: u32,
)
    requires
        plan_fault(m, f, cycle, cap) is None,
        planned(p, m, f, cycle, cap),
    ensures
        cycle < p.next_cycle_of() || p.state_of() == FixReviewState::Escalated,
        p.next_cycle_of() <= cap,
        p.state_of() == FixReviewState::Escalated <==> cycle == cap,
        p.task_of() is None <==> cycle == cap,
        p.task_of() matches Some(t) ==> t.next_cycle_of() == p.next_cycle_of(),
{
}

} // verus!
