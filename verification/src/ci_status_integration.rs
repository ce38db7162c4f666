//! Pure, bounded classification of CI results bound to one event identity.
use crate::digest::{fingerprint, fingerprint_of};
use crate::text::{contains_control, has_control, same_text, text_len, utf8_len};
use vstd::prelude::*;
use vstd::string::StrSliceExecFns;
use vstd::string::StringSliceAdditionalSpecFns;

verus! {

/// The most check results one input may carry.
pub const MAX_CI_CHECKS: usize = 32;

/// The longest identity value, in bytes.
pub const MAX_CI_VALUE_LEN: usize = 256;

#[derive(Debug, Clone, Copy, PartialEq, Eq, PartialOrd, Ord, Hash, Structural)]
pub enum RequiredCheck {
    BuildRust,
    Quality,
    Security,
}

#[derive(Debug, Clone, Copy, PartialEq, Eq, Structural)]
pub enum CiEvent {
    PullRequest,
    MergeGroup,
}

#[derive(Debug, Clone, Copy, PartialEq, Eq, Structural)]
pub enum CiCheckStatus {
    Pass,
    Fail,
    Skipped,
    Cancelled,
    Timeout,
    Missing,
    Malformed,
}

#[derive(Debug, Clone, Copy, PartialEq, Eq, Structural)]
pub enum CiState {
    Pass,
    Unknown,
}

#[derive(Debug, Clone, Copy, PartialEq, Eq, Structural)]
pub enum CiPolicyState {
    Enforced,
    NotApplicable,
}

#[derive(Debug, Clone, Copy, PartialEq, Eq, Structural)]
pub enum CiStatusError {
    InvalidValue,
    StaleEvidence,
    BoundsExceeded,
}

pub open spec fn ci_error_message(e: CiStatusError) -> Seq<char> {
    match e {
        CiStatusError::InvalidValue => "invalid CI identity value"@,
        CiStatusError::StaleEvidence => "CI evidence is stale or has wrong identity"@,
        CiStatusError::BoundsExceeded => "CI input exceeds bounds"@,
    }
}

impl CiStatusError {
    /// The human-readable description of the error.
    pub fn message(&self) -> (r: &'static str)
        ensures
            r@ == ci_error_message(*self),
    {
        match self {
            CiStatusError::InvalidValue => "invalid CI identity value",
            CiStatusError::StaleEvidence => "CI evidence is stale or has wrong identity",
            CiStatusError::BoundsExceeded => "CI input exceeds bounds",
        }
    }
}

/// A CI identity value: non-empty, at most 256 bytes, no control character.
pub open spec fn ci_value_ok(s: Seq<char>) -> bool {
    s.len() > 0 && utf8_len(s) <= MAX_CI_VALUE_LEN && !has_control(s)
}

fn value_ok(s: &str) -> (r: bool)
    ensures
        r == ci_value_ok(s@),
{
    s.unicode_len() > 0 && text_len(s) <= MAX_CI_VALUE_LEN && !contains_control(s)
}

#[derive(Debug, Clone, PartialEq, Eq)]
pub struct CiContext {
    pub repository: String,
    pub pull_request: String,
    pub event: CiEvent,
    pub head_sha: String,
    pub tree_sha: String,
    pub policy: String,
}

impl CiContext {
    /// A context, kept only if every identity value is valid.
    #[allow(clippy::too_many_arguments)]
    pub fn new(repo: &str, pr: &str, event: CiEvent, head: &str, tree: &str, policy: &str) -> (r:
        Result<Self, CiStatusError>)
        ensures
            r is Ok <==> ci_value_ok(repo@) && ci_value_ok(pr@) && ci_value_ok(head@) && ci_value_ok(
                tree@,
            ) && ci_value_ok(policy@),
            r matches Err(e) ==> e == CiStatusError::InvalidValue,
            r matches Ok(c) ==> c.repository@ == repo@ && c.pull_request@ == pr@ && c.event == event
                && c.head_sha@ == head@ && c.tree_sha@ == tree@ && c.policy@ == policy@,
    {
        if !value_ok(repo) || !value_ok(pr) || !value_ok(head) || !value_ok(tree) || !value_ok(
            policy,
        ) {
            return Err(CiStatusError::InvalidValue);
        }
        Ok(CiContext {
            repository: repo.to_string(),
            pull_request: pr.to_string(),
            event,
            head_sha: head.to_string(),
            tree_sha: tree.to_string(),
            policy: policy.to_string(),
        })
    }
}

#[derive(Debug, Clone, PartialEq, Eq)]
pub struct CiCheckResult {
    pub name: RequiredCheck,
    pub status: CiCheckStatus,
    pub head_sha: String,
    pub tree_sha: String,
    pub policy: String,
    pub run_id: String,
    pub digest: String,
}

impl CiCheckResult {
    /// A check result, kept only if every identity value is valid.
    #[allow(clippy::too_many_arguments)]
    pub fn new(
        name: RequiredCheck,
        status: CiCheckStatus,
        head: &str,
        tree: &str,
        policy: &str,
        run: &str,
        digest: &str,
    ) -> (r: Result<Self, CiStatusError>)
        ensures
            r is Ok <==> ci_value_ok(head@) && ci_value_ok(tree@) && ci_value_ok(policy@)
                && ci_value_ok(run@) && ci_value_ok(digest@),
            r matches Err(e) ==> e == CiStatusError::InvalidValue,
            r matches Ok(c) ==> c.name == name && c.status == status && c.head_sha@ == head@
                && c.tree_sha@ == tree@ && c.policy@ == policy@ && c.run_id@ == run@ && c.digest@
                == digest@,
    {
        if !value_ok(head) || !value_ok(tree) || !value_ok(policy) || !value_ok(run) || !value_ok(
            digest,
        ) {
            return Err(CiStatusError::InvalidValue);
        }
        Ok(CiCheckResult {
            name,
            status,
            head_sha: head.to_string(),
            tree_sha: tree.to_string(),
            policy: policy.to_string(),
            run_id: run.to_string(),
            digest: digest.to_string(),
        })
    }
}

#[derive(Debug, Clone)]
pub struct CiInput {
    pub context: CiContext,
    pub checks: Vec<CiCheckResult>,
}

impl CiInput {
    /// An input of at most 32 check results.
    pub fn new(context: CiContext, checks: Vec<CiCheckResult>) -> (r: Result<Self, CiStatusError>)
        ensures
            r is Ok <==> checks@.len() <= MAX_CI_CHECKS,
            r matches Err(e) ==> e == CiStatusError::BoundsExceeded,
            r matches Ok(i) ==> i.context == context && i.checks@ == checks@,
    {
        if checks.len() > MAX_CI_CHECKS {
            return Err(CiStatusError::BoundsExceeded);
        }
        Ok(CiInput { context, checks })
    }
}

#[derive(Debug, Clone)]
pub struct CiReport {
    state: CiState,
    policy_state: CiPolicyState,
    fingerprint: String,
}

impl CiReport {
    pub closed spec fn state_of(&self) -> CiState {
        self.state
    }

    pub closed spec fn policy_state_of(&self) -> CiPolicyState {
        self.policy_state
    }

    pub closed spec fn fingerprint_of(&self) -> Seq<char> {
        self.fingerprint@
    }

    pub fn state(&self) -> (r: CiState)
        ensures
            r == self.state_of(),
    {
        self.state
    }

    pub fn policy_state(&self) -> (r: CiPolicyState)
        ensures
            r == self.policy_state_of(),
    {
        self.policy_state
    }

    pub fn fingerprint(&self) -> (r: &str)
        ensures
            r@ == self.fingerprint_of(),
    {
        self.fingerprint.as_str()
    }

    /// A CI report only informs; it never grants a merge.
    pub fn can_merge(&self) -> (r: bool)
        ensures
            !r,
    {
        false
    }
}

// ---------------------------------------------------------------------------
// Classification
// ---------------------------------------------------------------------------
pub open spec fn not_applicable(ctx: CiContext) -> bool {
    ctx.policy@ == "not-applicable"@
}

/// A check result that belongs to another commit, tree or policy.
pub open spec fn check_stale(ctx: CiContext, c: CiCheckResult) -> bool {
    ||| c.head_sha@ != ctx.head_sha@
    ||| c.tree_sha@ != ctx.tree_sha@
    ||| !(not_applicable(ctx) || c.policy@ == ctx.policy@)
}

pub open spec fn some_stale(input: CiInput) -> bool {
    exists|k: int| 0 <= k < input.checks@.len() && #[trigger] check_stale(input.context, input.checks@[k])
}

pub open spec fn has_check(cs: Seq<CiCheckResult>, n: int, name: RequiredCheck) -> bool {
    exists|j: int| 0 <= j < n && #[trigger] cs[j].name == name
}

/// Result `k` repeats an earlier check or did not pass.
pub open spec fn check_unknown(cs: Seq<CiCheckResult>, k: int) -> bool {
    has_check(cs, k, cs[k].name) || cs[k].status != CiCheckStatus::Pass
}

pub open spec fn unknown_upto(cs: Seq<CiCheckResult>, n: int) -> bool {
    exists|k: int| 0 <= k < n && #[trigger] check_unknown(cs, k)
}

/// The results prove nothing: a repeated or unpassed check, or a required
/// check without a result.
pub open spec fn ci_unknown(cs: Seq<CiCheckResult>) -> bool {
    ||| unknown_upto(cs, cs.len() as int)
    ||| !has_check(cs, cs.len() as int, RequiredCheck::BuildRust)
    ||| !has_check(cs, cs.len() as int, RequiredCheck::Quality)
    ||| !has_check(cs, cs.len() as int, RequiredCheck::Security)
}

pub open spec fn event_name(e: CiEvent) -> Seq<char> {
    match e {
        CiEvent::PullRequest => "PullRequest"@,
        CiEvent::MergeGroup => "MergeGroup"@,
    }
}

pub open spec fn check_name(c: RequiredCheck) -> Seq<char> {
    match c {
        RequiredCheck::BuildRust => "BuildRust"@,
        RequiredCheck::Quality => "Quality"@,
        RequiredCheck::Security => "Security"@,
    }
}

pub open spec fn status_name(s: CiCheckStatus) -> Seq<char> {
    match s {
        CiCheckStatus::Pass => "Pass"@,
        CiCheckStatus::Fail => "Fail"@,
        CiCheckStatus::Skipped => "Skipped"@,
        CiCheckStatus::Cancelled => "Cancelled"@,
        CiCheckStatus::Timeout => "Timeout"@,
        CiCheckStatus::Missing => "Missing"@,
        CiCheckStatus::Malformed => "Malformed"@,
    }
}

fn event_text(e: CiEvent) -> (r: &'static str)
    ensures
        r@ == event_name(e),
{
    match e {
        CiEvent::PullRequest => "PullRequest",
        CiEvent::MergeGroup => "MergeGroup",
    }
}

fn check_text(c: RequiredCheck) -> (r: &'static str)
    ensures
        r@ == check_name(c),
{
    match c {
        RequiredCheck::BuildRust => "BuildRust",
        RequiredCheck::Quality => "Quality",
        RequiredCheck::Security => "Security",
    }
}

fn status_text(s: CiCheckStatus) -> (r: &'static str)
    ensures
        r@ == status_name(s),
{
    match s {
        CiCheckStatus::Pass => "Pass",
        CiCheckStatus::Fail => "Fail",
        CiCheckStatus::Skipped => "Skipped",
        CiCheckStatus::Cancelled => "Cancelled",
        CiCheckStatus::Timeout => "Timeout",
        CiCheckStatus::Missing => "Missing",
        CiCheckStatus::Malformed => "Malformed",
    }
}

/// The text of the first `n` check results, as fingerprinted.
pub open spec fn checks_text(cs: Seq<CiCheckResult>, n: int) -> Seq<char>
    decreases n,
{
    if n <= 0 {
        seq![]
    } else {
        checks_text(cs, n - 1) + check_name(cs[n - 1].name) + ":"@ + status_name(cs[n - 1].status)
            + ":"@ + cs[n - 1].digest@
    }
}

/// The text the report fingerprint is computed over.
pub open spec fn ci_text(input: CiInput) -> Seq<char> {
    let c = input.context;
    c.repository@ + ":"@ + c.pull_request@ + ":"@ + c.head_sha@ + ":"@ + event_name(c.event) + ":"@
        + c.policy@ + checks_text(input.checks@, input.checks@.len() as int)
}

fn ci_fingerprint(input: &CiInput) -> (r: String)
    ensures
        r@ == fingerprint_of(vstd::utf8::encode_utf8(ci_text(*input))),
{
    let c = &input.context;
    let mut text = String::new();
    text.append(c.repository.as_str());
    text.append(":");
    text.append(c.pull_request.as_str());
    text.append(":");
    text.append(c.head_sha.as_str());
    text.append(":");
    text.append(event_text(c.event));
    text.append(":");
    text.append(c.policy.as_str());
    let ghost head = text@;
    let mut i: usize = 0;
    while i < input.checks.len()
        invariant
            i <= input.checks@.len(),
            text@ == head + checks_text(input.checks@, i as int),
        decreases input.checks@.len() - i,
    {
        let check = &input.checks[i];
        text.append(check_text(check.name));
        text.append(":");
        text.append(status_text(check.status));
        text.append(":");
        text.append(check.digest.as_str());
        i = i + 1;
    }
    assert(text@ =~= ci_text(*input));
    fingerprint(text.as_str())
}

pub struct CiStatusIntegration;

impl CiStatusIntegration {
    /// Classifies the results for the input's identity: any result for
    /// another commit, tree or policy is refused; the state is a pass only
    /// when each required check passed exactly once.
    pub fn evaluate(input: &CiInput) -> (r: Result<CiReport, CiStatusError>)
        ensures
            r is Err <==> some_stale(*input),
            r matches Err(e) ==> e == CiStatusError::StaleEvidence,
            r matches Ok(rep) ==> {
                &&& rep.state_of() == (if ci_unknown(input.checks@) {
                    CiState::Unknown
                } else {
                    CiState::Pass
                })
                &&& rep.policy_state_of() == (if not_applicable(input.context) {
                    CiPolicyState::NotApplicable
                } else {
                    CiPolicyState::Enforced
                })
                &&& rep.fingerprint_of() == fingerprint_of(vstd::utf8::encode_utf8(ci_text(*input)))
            },
    {
        let ghost cs = input.checks@;
        let ctx = &input.context;
        let na = same_text(ctx.policy.as_str(), "not-applicable");
        let mut seen_build = false;
        let mut seen_quality = false;
        let mut seen_security = false;
        let mut unknown = false;
        let mut i: usize = 0;
        while i < input.checks.len()
            invariant
                cs == input.checks@,
                na == not_applicable(input.context),
                i <= cs.len(),
                forall|k: int| 0 <= k < i ==> !#[trigger] check_stale(input.context, cs[k]),
                seen_build == has_check(cs, i as int, RequiredCheck::BuildRust),
                seen_quality == has_check(cs, i as int, RequiredCheck::Quality),
                seen_security == has_check(cs, i as int, RequiredCheck::Security),
                unknown == unknown_upto(cs, i as int),
            decreases cs.len() - i,
        {
            let check = &input.checks[i];
            if check.head_sha != input.context.head_sha || check.tree_sha != input.context.tree_sha {
                assert(check_stale(input.context, cs[i as int]));
                return Err(CiStatusError::StaleEvidence);
            }
            if !(na || check.policy == input.context.policy) {
                assert(check_stale(input.context, cs[i as int]));
                return Err(CiStatusError::StaleEvidence);
            }
            let repeated = match check.name {
                RequiredCheck::BuildRust => seen_build,
                RequiredCheck::Quality => seen_quality,
                RequiredCheck::Security => seen_security,
            };
            match check.name {
                RequiredCheck::BuildRust => seen_build = true,
                RequiredCheck::Quality => seen_quality = true,
                RequiredCheck::Security => seen_security = true,
            }
            let failed = check.status != CiCheckStatus::Pass;
            assert(repeated || failed <==> check_unknown(cs, i as int));
            if repeated || failed {
                unknown = true;
            }
            proof {
                assert forall|name: RequiredCheck| #[trigger]
                    has_check(cs, i + 1, name) == (has_check(cs, i as int, name) || cs[i as int].name
                        == name) by {
                    if has_check(cs, i + 1, name) && cs[i as int].name != name {
                        let j = choose|j: int| 0 <= j < i + 1 && #[trigger] cs[j].name == name;
                        assert(j < i);
                    }
                }
                if unknown_upto(cs, i + 1) && !check_unknown(cs, i as int) {
                    let k = choose|k: int| 0 <= k < i + 1 && #[trigger] check_unknown(cs, k);
                    assert(k < i);
                }
            }
            i = i + 1;
        }
        if !seen_build || !seen_quality || !seen_security {
            unknown = true;
        }
        let policy_state = if na {
            CiPolicyState::NotApplicable
        } else {
            CiPolicyState::Enforced
        };
        Ok(
            CiReport {
                state: if unknown {
                    CiState::Unknown
                } else {
                    CiState::Pass
                },
                policy_state,
                fingerprint: ci_fingerprint(input),
            },
        )
    }
}

/// The CI state is a pass exactly when each required check has exactly one
/// result and every result passed.
pub proof fn law_ci_pass_needs_each_check_once(cs: Seq<CiCheckResult>)
    ensures
        !ci_unknown(cs) <==> {
            &&& forall|k: int| 0 <= k < cs.len() ==> #[trigger] cs[k].status == CiCheckStatus::Pass
            &&& forall|j: int, k: int| 0 <= j < k < cs.len() ==> cs[j].name != cs[k].name
            &&& forall|name: RequiredCheck| #[trigger] has_check(cs, cs.len() as int, name)
        },
{
    if !ci_unknown(cs) {
        assert forall|k: int| 0 <= k < cs.len() implies #[trigger] cs[k].status == CiCheckStatus::Pass by {
            assert(!check_unknown(cs, k));
        }
        assert forall|j: int, k: int| 0 <= j < k < cs.len() implies cs[j].name != cs[k].name by {
            assert(!check_unknown(cs, k));
            if cs[j].name == cs[k].name {
                assert(has_check(cs, k, cs[k].name));
            }
        }
        assert forall|name: RequiredCheck| #[trigger] has_check(cs, cs.len() as int, name) by {
            match name {
                RequiredCheck::BuildRust => {},
                RequiredCheck::Quality => {},
                RequiredCheck::Security => {},
            }
        }
    } else {
        if unknown_upto(cs, cs.len() as int) {
            let k = choose|k: int| 0 <= k < cs.len() && #[trigger] check_unknown(cs, k);
            if has_check(cs, k, cs[k].name) {
                let j = choose|j: int| 0 <= j < k && #[trigger] cs[j].name == cs[k].name;
                assert(cs[j].name == cs[k].name);
            }
        }
    }
}

} // verus!
